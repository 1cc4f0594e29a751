//! Random draws. A draw is a `u32` that stands for the fraction
//! `draw / 2^32` of the unit interval; the caller supplies every draw.

use vstd::prelude::*;

verus! {

/// Number of values a draw can take: `2^32`.
pub open spec fn draw_range() -> int {
    0x1_0000_0000
}

/// A draw at or above this value stands for a fraction of one half or more.
pub const HALF_DRAW: u32 = 0x8000_0000;

/// The fraction `draw / 2^32` of `span`, rounded down.
pub open spec fn fraction_of(draw: u32, span: int) -> int {
    (draw as int * span) / 0x1_0000_0000
}

/// The least draw whose fraction of `span` is `part` or more:
/// `part * 2^32 / span`, rounded up.
pub open spec fn first_draw_for(part: int, span: int) -> int {
    (part * draw_range() + span - 1) / span
}

/// The fraction `draw / 2^32` of `span`, rounded down.
pub fn scale(draw: u32, span: i32) -> (part: i32)
    requires
        0 <= span,
    ensures
        part == fraction_of(draw, span as int),
        0 <= part <= span,
        span > 0 ==> part < span,
{
    assert(0 <= draw as int * span as int <= 0xffff_ffff * span as int) by (nonlinear_arith)
        requires
            0 <= draw <= 0xffff_ffff,
            0 <= span,
    ;
    let wide: u64 = (draw as u64) * (span as u64);
    let part: u64 = wide / 0x1_0000_0000u64;
    part as i32
}

/// A fraction of a positive span is a part of it, and never all of it.
pub proof fn lemma_fraction_of_bounds(draw: u32, span: int)
    requires
        0 < span,
    ensures
        0 <= fraction_of(draw, span) < span,
{
    assert(0 <= draw as int * span < 0x1_0000_0000 * span) by (nonlinear_arith)
        requires
            0 <= draw < 0x1_0000_0000,
            0 < span,
    ;
}

/// `first_draw_for(part, span)` is the least number whose product with
/// `span` reaches `part * 2^32`.
pub proof fn lemma_first_draw(part: int, span: int, draw: int)
    requires
        0 < span,
        0 <= part,
    ensures
        draw * span >= part * draw_range() <==> draw >= first_draw_for(part, span),
{
    let target = part * draw_range();
    let first = first_draw_for(part, span);
    assert(first * span >= target && (first - 1) * span < target) by (nonlinear_arith)
        requires
            0 < span,
            0 <= target,
            first == (target + span - 1) / span,
    ;
    if draw >= first {
        assert(draw * span >= first * span) by (nonlinear_arith)
            requires
                draw >= first,
                0 < span,
        ;
    } else {
        assert(draw * span <= (first - 1) * span) by (nonlinear_arith)
            requires
                draw <= first - 1,
                0 < span,
        ;
    }
}

/// Draws share out a span evenly. The draws whose fraction of `span` is
/// `part` are those from `first_draw_for(part, span)` up to, and not
/// including, `first_draw_for(part + 1, span)`; and every part of the span
/// has `2^32 / span` such draws, rounded down or up. So draws that are
/// uniform over their range give parts that are uniform over the span.
pub proof fn law_draws_share_evenly(span: int, part: int, draw: u32)
    requires
        0 < span <= draw_range(),
        0 <= part < span,
    ensures
        fraction_of(draw, span) == part <==> first_draw_for(part, span) <= draw < first_draw_for(
            part + 1,
            span,
        ),
        0 <= first_draw_for(part, span) < first_draw_for(part + 1, span) <= draw_range(),
        draw_range() / span <= first_draw_for(part + 1, span) - first_draw_for(part, span)
            <= draw_range() / span + 1,
{
    let low = first_draw_for(part, span);
    let high = first_draw_for(part + 1, span);
    lemma_first_draw(part, span, draw as int);
    lemma_first_draw(part + 1, span, draw as int);
    lemma_first_draw(part, span, low);
    lemma_first_draw(part, span, low - 1);
    lemma_first_draw(part + 1, span, high);
    lemma_first_draw(part + 1, span, high - 1);
    lemma_first_draw(part + 1, span, draw_range());
    let share = draw_range() / span;
    assert((part + 1) * draw_range() == part * draw_range() + draw_range()) by (nonlinear_arith);
    assert(draw_range() * span >= (part + 1) * draw_range()) by (nonlinear_arith)
        requires
            part + 1 <= span,
    ;
    assert(share * span <= draw_range() < (share + 1) * span) by (nonlinear_arith)
        requires
            0 < span,
            share == draw_range() / span,
    ;
    assert(share >= 1) by (nonlinear_arith)
        requires
            0 < span <= draw_range(),
            draw_range() < (share + 1) * span,
    ;
    assert(share <= high - low <= share + 1) by (nonlinear_arith)
        requires
            0 < span,
            low * span >= part * draw_range(),
            (low - 1) * span < part * draw_range(),
            high * span >= part * draw_range() + draw_range(),
            (high - 1) * span < part * draw_range() + draw_range(),
            share * span <= draw_range() < (share + 1) * span,
    ;
    assert(low >= 0) by (nonlinear_arith)
        requires
            0 < span,
            0 <= part,
            low * span >= part * draw_range(),
    ;
}

} // verus!
