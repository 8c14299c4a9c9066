use vstd::prelude::*;
use crate::window::WindowOp;
use crate::window::WindowState;
use crate::window::build_restore_plan;
use crate::window::lemma_restore_sequence_restores;
use crate::window::restore_plan;
use crate::window::spec_apply_all;

verus! {

/// The single-instance guard's whole decision when a second launch is
/// detected. The arguments and working directory of the second launch are
/// logged only and never parsed: the plan depends on nothing but whether a
/// window under the main identifier was found.
pub fn second_instance_plan(window_found: bool) -> (plan: Vec<WindowOp>)
    ensures
        plan@ == restore_plan(window_found),
{
    build_restore_plan(window_found)
}

/// A second launch while the main window exists, minimized or not, leaves
/// the window visible, un-minimized and focused.
pub proof fn lemma_second_instance_restores(s: WindowState)
    ensures
        spec_apply_all(s, restore_plan(true)).visible,
        !spec_apply_all(s, restore_plan(true)).minimized,
        spec_apply_all(s, restore_plan(true)).focused,
{
    lemma_restore_sequence_restores(s);
}

/// A second launch without a main window issues no operation: every window
/// stays exactly as it was.
pub proof fn lemma_second_instance_without_window(s: WindowState)
    ensures
        restore_plan(false).len() == 0,
        spec_apply_all(s, restore_plan(false)) == s,
{
}

} // verus!
