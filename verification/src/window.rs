use vstd::prelude::*;

verus! {

/// One operation issued against the main window handle.
#[derive(Debug, Clone, Copy, PartialEq, Eq, Structural)]
pub enum WindowOp {
    Show,
    Unminimize,
    SetFocus,
    Hide,
}

/// The model of the main window that the plans below act on: visibility,
/// minimization and focus, the only attributes this backend ever changes.
#[derive(Debug, Clone, Copy, PartialEq, Eq, Structural)]
pub struct WindowState {
    pub visible: bool,
    pub minimized: bool,
    pub focused: bool,
}

/// What one successful window operation does to the window. Hiding a window
/// also takes its focus; no operation has any further effect.
pub open spec fn spec_apply(s: WindowState, op: WindowOp) -> WindowState {
    match op {
        WindowOp::Show => WindowState { visible: true, minimized: s.minimized, focused: s.focused },
        WindowOp::Unminimize => WindowState {
            visible: s.visible,
            minimized: false,
            focused: s.focused,
        },
        WindowOp::SetFocus => WindowState {
            visible: s.visible,
            minimized: s.minimized,
            focused: true,
        },
        WindowOp::Hide => WindowState { visible: false, minimized: s.minimized, focused: false },
    }
}

/// The window after a whole plan runs, every operation succeeding.
pub open spec fn spec_apply_all(s: WindowState, ops: Seq<WindowOp>) -> WindowState
    decreases ops.len(),
{
    if ops.len() == 0 {
        s
    } else {
        spec_apply_all(spec_apply(s, ops[0]), ops.subrange(1, ops.len() as int))
    }
}

/// The window after a whole plan runs when some operations may fail at the
/// OS: a failed operation leaves the window as it was, and the rest of the
/// plan is still attempted.
pub open spec fn spec_apply_attempts(s: WindowState, ops: Seq<WindowOp>, ok: Seq<bool>) -> WindowState
    decreases ops.len(),
{
    if ops.len() == 0 || ok.len() == 0 {
        s
    } else {
        let next = if ok[0] {
            spec_apply(s, ops[0])
        } else {
            s
        };
        spec_apply_attempts(next, ops.subrange(1, ops.len() as int), ok.subrange(1, ok.len() as int))
    }
}

/// The fixed sequence that brings the main window back to the front: show it,
/// un-minimize it, focus it, in that order.
pub open spec fn restore_sequence() -> Seq<WindowOp> {
    seq![WindowOp::Show, WindowOp::Unminimize, WindowOp::SetFocus]
}

/// The plan issued when the main window must be brought back: the restore
/// sequence when the window was found, nothing when it was not.
pub open spec fn restore_plan(window_found: bool) -> Seq<WindowOp> {
    if window_found {
        restore_sequence()
    } else {
        Seq::<WindowOp>::empty()
    }
}

/// Builds the restore plan as a vector of operations.
pub fn build_restore_plan(window_found: bool) -> (plan: Vec<WindowOp>)
    ensures
        plan@ == restore_plan(window_found),
{
    let mut plan: Vec<WindowOp> = Vec::new();
    if window_found {
        plan.push(WindowOp::Show);
        plan.push(WindowOp::Unminimize);
        plan.push(WindowOp::SetFocus);
        proof {
            assert(plan@ =~= restore_sequence());
        }
    }
    plan
}

pub fn apply_op(s: WindowState, op: WindowOp) -> (r: WindowState)
    ensures
        r == spec_apply(s, op),
{
    match op {
        WindowOp::Show => WindowState { visible: true, minimized: s.minimized, focused: s.focused },
        WindowOp::Unminimize => WindowState {
            visible: s.visible,
            minimized: false,
            focused: s.focused,
        },
        WindowOp::SetFocus => WindowState {
            visible: s.visible,
            minimized: s.minimized,
            focused: true,
        },
        WindowOp::Hide => WindowState { visible: false, minimized: s.minimized, focused: false },
    }
}

/// Runs a plan on the window model with every operation succeeding.
pub fn run_plan(s: WindowState, plan: &Vec<WindowOp>) -> (r: WindowState)
    ensures
        r == spec_apply_all(s, plan@),
{
    let mut cur = s;
    let mut i: usize = 0;
    proof {
        assert(plan@.subrange(0, plan@.len() as int) =~= plan@);
    }
    while i < plan.len()
        invariant
            i <= plan.len(),
            spec_apply_all(s, plan@) == spec_apply_all(cur, plan@.subrange(i as int, plan@.len() as int)),
        decreases plan.len() - i,
    {
        proof {
            let rest = plan@.subrange(i as int, plan@.len() as int);
            assert(rest[0] == plan@[i as int]);
            assert(rest.subrange(1, rest.len() as int) =~= plan@.subrange(
                i + 1 as int,
                plan@.len() as int,
            ));
        }
        cur = apply_op(cur, plan[i]);
        i += 1;
    }
    cur
}

/// Runs a plan on the window model, the flag beside each operation saying
/// whether the OS call succeeded; a failed operation changes nothing.
pub fn run_plan_attempts(s: WindowState, plan: &Vec<WindowOp>, ok: &Vec<bool>) -> (r: WindowState)
    requires
        plan@.len() == ok@.len(),
    ensures
        r == spec_apply_attempts(s, plan@, ok@),
{
    let mut cur = s;
    let mut i: usize = 0;
    proof {
        assert(plan@.subrange(0, plan@.len() as int) =~= plan@);
        assert(ok@.subrange(0, ok@.len() as int) =~= ok@);
    }
    while i < plan.len()
        invariant
            i <= plan.len(),
            plan@.len() == ok@.len(),
            spec_apply_attempts(s, plan@, ok@) == spec_apply_attempts(
                cur,
                plan@.subrange(i as int, plan@.len() as int),
                ok@.subrange(i as int, ok@.len() as int),
            ),
        decreases plan.len() - i,
    {
        proof {
            let rest = plan@.subrange(i as int, plan@.len() as int);
            let rest_ok = ok@.subrange(i as int, ok@.len() as int);
            assert(rest[0] == plan@[i as int]);
            assert(rest_ok[0] == ok@[i as int]);
            assert(rest.subrange(1, rest.len() as int) =~= plan@.subrange(
                i + 1 as int,
                plan@.len() as int,
            ));
            assert(rest_ok.subrange(1, rest_ok.len() as int) =~= ok@.subrange(
                i + 1 as int,
                ok@.len() as int,
            ));
        }
        if ok[i] {
            cur = apply_op(cur, plan[i]);
        }
        i += 1;
    }
    cur
}

/// The kinds of window lifecycle event the router receives.
#[derive(Debug, Clone, Copy, PartialEq, Eq, Structural)]
pub enum WindowEventKind {
    CloseRequested,
    Focused,
    Resized,
    Moved,
    Destroyed,
}

/// What the router tells the shell to do with a window event.
#[derive(Debug, Clone, Copy, PartialEq, Eq, Structural)]
pub enum RouterAction {
    /// Keep the process alive: cancel the close and hide the window instead,
    /// so the tray can restore it later.
    HideInsteadOfClose,
}

/// Central policy for window lifecycle events: a close request is turned
/// into a hide, every other kind is left alone.
pub fn route_window_event(kind: WindowEventKind) -> (action: Option<RouterAction>)
    ensures
        (kind is CloseRequested) <==> action == Some(RouterAction::HideInsteadOfClose),
        !(kind is CloseRequested) <==> action is None,
{
    match kind {
        WindowEventKind::CloseRequested => Some(RouterAction::HideInsteadOfClose),
        _ => None,
    }
}

/// Unfolds a three-operation plan into its three steps.
proof fn lemma_apply_all_three(s: WindowState, a: WindowOp, b: WindowOp, c: WindowOp)
    ensures
        spec_apply_all(s, seq![a, b, c]) == spec_apply(spec_apply(spec_apply(s, a), b), c),
{
    reveal_with_fuel(spec_apply_all, 5);
    let ops = seq![a, b, c];
    assert(ops.subrange(1, 3) =~= seq![b, c]);
    assert(seq![b, c].subrange(1, 2) =~= seq![c]);
    assert(seq![c].subrange(1, 1) =~= Seq::<WindowOp>::empty());
}

/// The restore sequence leaves the window visible, un-minimized and focused,
/// from any starting state.
pub proof fn lemma_restore_sequence_restores(s: WindowState)
    ensures
        spec_apply_all(s, restore_sequence()).visible,
        !spec_apply_all(s, restore_sequence()).minimized,
        spec_apply_all(s, restore_sequence()).focused,
{
    lemma_apply_all_three(s, WindowOp::Show, WindowOp::Unminimize, WindowOp::SetFocus);
}

/// Failures inside the restore sequence are isolated: each operation that
/// succeeds has its effect, each that fails costs only its own effect, and
/// no failure stops the operations after it.
pub proof fn lemma_restore_attempts_isolated(s: WindowState, ok: Seq<bool>)
    requires
        ok.len() == 3,
    ensures
        spec_apply_attempts(s, restore_sequence(), ok).visible == (s.visible || ok[0]),
        spec_apply_attempts(s, restore_sequence(), ok).minimized == (s.minimized && !ok[1]),
        spec_apply_attempts(s, restore_sequence(), ok).focused == (s.focused || ok[2]),
{
    reveal_with_fuel(spec_apply_attempts, 5);
    let ops = restore_sequence();
    assert(ops.subrange(1, 3) =~= seq![WindowOp::Unminimize, WindowOp::SetFocus]);
    assert(seq![WindowOp::Unminimize, WindowOp::SetFocus].subrange(1, 2) =~= seq![
        WindowOp::SetFocus,
    ]);
    assert(seq![WindowOp::SetFocus].subrange(1, 1) =~= Seq::<WindowOp>::empty());
    assert(ok.subrange(1, 3).subrange(1, 2) =~= ok.subrange(2, 3));
    assert(ok.subrange(1, 3)[0] == ok[1]);
    assert(ok.subrange(2, 3)[0] == ok[2]);
}

/// The round trip of the close policy: a close request hides the window, and
/// the restore sequence then brings it back visible, un-minimized and focused.
pub proof fn lemma_close_then_restore(s: WindowState)
    ensures
        !spec_apply(s, WindowOp::Hide).visible,
        spec_apply_all(spec_apply(s, WindowOp::Hide), restore_sequence()).visible,
        !spec_apply_all(spec_apply(s, WindowOp::Hide), restore_sequence()).minimized,
        spec_apply_all(spec_apply(s, WindowOp::Hide), restore_sequence()).focused,
{
    lemma_restore_sequence_restores(spec_apply(s, WindowOp::Hide));
}

} // verus!
