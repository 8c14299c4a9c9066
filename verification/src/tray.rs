use vstd::prelude::*;
use crate::window::WindowOp;
use crate::window::build_restore_plan;
use crate::window::restore_plan;

verus! {

/// The actions the tray menu offers.
#[derive(Debug, Clone, Copy, PartialEq, Eq, Structural)]
pub enum TrayMenuItem {
    Show,
    Quit,
}

/// What one tray click decided: the operations to issue against the main
/// window, and the exit status to terminate with, if any.
#[derive(Debug, Clone)]
pub struct TrayDecision {
    pub plan: Vec<WindowOp>,
    pub exit_code: Option<i32>,
}

/// The exit status a tray item asks for: only "quit" terminates, with
/// status 0.
pub open spec fn tray_exit(item: TrayMenuItem) -> Option<i32> {
    match item {
        TrayMenuItem::Show => None,
        TrayMenuItem::Quit => Some(0i32),
    }
}

/// The menu the tray is built with: "show", then "quit".
pub fn tray_menu() -> (items: Vec<TrayMenuItem>)
    ensures
        items@ == seq![TrayMenuItem::Show, TrayMenuItem::Quit],
{
    let mut items: Vec<TrayMenuItem> = Vec::new();
    items.push(TrayMenuItem::Show);
    items.push(TrayMenuItem::Quit);
    proof {
        assert(items@ =~= seq![TrayMenuItem::Show, TrayMenuItem::Quit]);
    }
    items
}

/// Clicking "show" issues exactly the restore plan of the single-instance
/// guard; clicking "quit" touches no window and exits with status 0.
pub fn handle_tray_click(item: TrayMenuItem, window_found: bool) -> (d: TrayDecision)
    ensures
        item is Show ==> d.plan@ == restore_plan(window_found),
        item is Quit ==> d.plan@ == Seq::<WindowOp>::empty(),
        d.exit_code == tray_exit(item),
{
    match item {
        TrayMenuItem::Show => TrayDecision {
            plan: build_restore_plan(window_found),
            exit_code: None,
        },
        TrayMenuItem::Quit => {
            let plan: Vec<WindowOp> = Vec::new();
            proof {
                assert(plan@ =~= Seq::<WindowOp>::empty());
            }
            TrayDecision { plan, exit_code: Some(0i32) }
        },
    }
}

} // verus!
