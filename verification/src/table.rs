//! The level table: how many dots a level starts with and how many of them
//! must be captured to win it.

use crate::text::{decimal_digits, push_decimal};
use vstd::prelude::*;

verus! {

/// Number of the first level.
pub const FIRST_LEVEL: u8 = 1;

/// Number of the last level the table defines.
pub const LAST_LEVEL: u8 = 12;

/// A level number that the table does not define.
#[derive(Clone, Copy, Debug, PartialEq, Eq, Structural)]
pub struct ConfigLookupError {
    pub level: u8,
}

impl ConfigLookupError {
    /// The message of the error: `No level defined: `, then the level
    /// number in decimal.
    pub open spec fn message_of(self) -> Seq<char> {
        "No level defined: "@ + decimal_digits(self.level)
    }

    /// The message of the error.
    pub fn message(&self) -> (text: String)
        ensures
            text@ == self.message_of(),
    {
        let mut text: String = String::from_str("No level defined: ");
        push_decimal(&mut text, self.level);
        text
    }
}

/// Whether the table has an entry for `number`.
pub open spec fn level_defined(number: u8) -> bool {
    FIRST_LEVEL <= number <= LAST_LEVEL
}

/// Number of floating dots that level `number` starts with: five more on
/// every level.
pub open spec fn total_dots(number: u8) -> nat {
    5 * number as nat
}

/// Win thresholds of the defined levels, in level order.
pub open spec fn thresholds() -> Seq<nat> {
    seq![1, 2, 3, 5, 7, 10, 15, 21, 27, 33, 44, 50]
}

/// Number of captured dots that wins level `number`.
pub open spec fn win_threshold(number: u8) -> nat
    recommends
        level_defined(number),
{
    thresholds()[number - 1]
}

/// Looks up level `number`: `(total_dots, win_threshold)` for a defined
/// level, the lookup error carrying `number` for any other.
pub fn level(number: u8) -> (res: Result<(u8, u8), ConfigLookupError>)
    ensures
        res is Ok <==> level_defined(number),
        res matches Ok(entry) ==> entry.0 == total_dots(number) && entry.1 == win_threshold(number),
        res matches Err(e) ==> e.level == number,
{
    match number {
        1 => Ok((5, 1)),
        2 => Ok((10, 2)),
        3 => Ok((15, 3)),
        4 => Ok((20, 5)),
        5 => Ok((25, 7)),
        6 => Ok((30, 10)),
        7 => Ok((35, 15)),
        8 => Ok((40, 21)),
        9 => Ok((45, 27)),
        10 => Ok((50, 33)),
        11 => Ok((55, 44)),
        12 => Ok((60, 50)),
        _ => Err(ConfigLookupError { level: number }),
    }
}

/// Every defined level can be won, and winning takes at least one capture.
pub proof fn law_every_level_can_be_won(number: u8)
    requires
        level_defined(number),
    ensures
        1 <= win_threshold(number) <= total_dots(number),
{
}

/// Later levels start with more dots and ask for more captures.
pub proof fn law_levels_get_harder(a: u8, b: u8)
    requires
        level_defined(a),
        level_defined(b),
        a < b,
    ensures
        total_dots(a) < total_dots(b),
        win_threshold(a) < win_threshold(b),
{
}

} // verus!
