//! Static titles for the wizard's steps. The step bodies themselves are
//! presentation and live with the renderer.

use vstd::prelude::*;

verus! {

/// The title shown for each step, with a generic fallback for any step
/// number outside the wizard's range.
pub fn get_step_title(current_step: usize) -> (title: &'static str)
    ensures
        current_step == 0 ==> title@ == " Welcome "@,
        current_step == 1 ==> title@ == " Nerd Font Test "@,
        current_step == 2 ==> title@ == " Automatic Configuration "@,
        current_step >= 3 ==> title@ == " Intro "@,
{
    match current_step {
        0 => " Welcome ",
        1 => " Nerd Font Test ",
        2 => " Automatic Configuration ",
        _ => " Intro ",
    }
}

} // verus!
