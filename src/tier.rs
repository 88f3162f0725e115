//! The loyalty tier as a function of cumulative attendance.

use vstd::prelude::*;

verus! {

/// The tier that belongs to an attendance count.
pub open spec fn tier_of(attendance: int) -> u8 {
    if attendance <= 1 {
        1
    } else if attendance <= 4 {
        2
    } else if attendance <= 6 {
        5
    } else if attendance <= 9 {
        7
    } else {
        10
    }
}

/// Maps an attendance count to its tier: 1 for up to one event, 2 for two
/// to four, 5 for five or six, 7 for seven to nine, and 10 from ten on.
pub fn calculate_tier(attendance: u16) -> (tier: u8)
    ensures
        tier == tier_of(attendance as int),
        attendance <= 1 ==> tier == 1,
        2 <= attendance <= 4 ==> tier == 2,
        5 <= attendance <= 6 ==> tier == 5,
        7 <= attendance <= 9 ==> tier == 7,
        10 <= attendance ==> tier == 10,
        1 <= tier <= 10,
{
    match attendance {
        0..=1 => 1,
        2..=4 => 2,
        5..=6 => 5,
        7..=9 => 7,
        _ => 10,
    }
}

} // verus!
