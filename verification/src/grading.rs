//! Letter grades for scores.

use vstd::prelude::*;

verus! {

/// The letter that a score earns: `A` from 90 to 100, `B` from 80 to 89, `C`
/// from 70 to 79, and `F` for every other score.
pub open spec fn grade_letter(score: int) -> Seq<char> {
    if 90 <= score <= 100 {
        "A"@
    } else if 80 <= score <= 89 {
        "B"@
    } else if 70 <= score <= 79 {
        "C"@
    } else {
        "F"@
    }
}

/// The letter grade of `score`.
pub fn grade(score: i32) -> (letter: &'static str)
    ensures
        letter@ == grade_letter(score as int),
{
    if 90 <= score && score <= 100 {
        "A"
    } else if 80 <= score && score <= 89 {
        "B"
    } else if 70 <= score && score <= 79 {
        "C"
    } else {
        "F"
    }
}

} // verus!
