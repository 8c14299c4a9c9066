use vstd::prelude::*;
use crate::envelope::CommandResponse;

verus! {

/// Whether the shell was compiled for debugging or for release. The
/// embedding binary picks the variant once, at build time.
#[derive(Debug, Clone, Copy, PartialEq, Eq, Structural)]
pub enum BuildMode {
    Debug,
    Release,
}

/// The panel operation a devtools toggle performs.
#[derive(Debug, Clone, Copy, PartialEq, Eq, Structural)]
pub enum DevToolsOp {
    Open,
    Close,
}

/// What one devtools toggle decided: the panel operation to perform, if
/// any, and the envelope to answer with.
#[derive(Debug, Clone)]
pub struct ToggleOutcome {
    pub op: Option<DevToolsOp>,
    pub response: CommandResponse,
}

/// What one quit command decided: the exit status, and the envelope that is
/// answered before the process terminates.
#[derive(Debug, Clone)]
pub struct QuitDecision {
    pub exit_code: i32,
    pub response: CommandResponse,
}

pub open spec fn msg_devtools_unavailable() -> Seq<char> {
    "开发者工具仅在调试模式下可用"@
}

pub open spec fn msg_main_window_missing() -> Seq<char> {
    "未找到主窗口"@
}

pub open spec fn msg_devtools_opened() -> Seq<char> {
    "开发者工具已打开"@
}

pub open spec fn msg_devtools_closed() -> Seq<char> {
    "开发者工具已关闭"@
}

pub open spec fn msg_quitting() -> Seq<char> {
    "应用程序即将退出"@
}

pub open spec fn msg_system_info() -> Seq<char> {
    "system information collected"@
}

/// The panel operation a toggle performs: none in a release build or without
/// a main window; otherwise it closes an open panel and opens a closed one.
pub open spec fn toggle_op(mode: BuildMode, window_found: bool, devtools_open: bool) -> Option<
    DevToolsOp,
> {
    if mode is Release {
        None
    } else if !window_found {
        None
    } else if devtools_open {
        Some(DevToolsOp::Close)
    } else {
        Some(DevToolsOp::Open)
    }
}

/// A toggle succeeds exactly in a debug build with the main window present.
pub open spec fn toggle_succeeds(mode: BuildMode, window_found: bool) -> bool {
    mode is Debug && window_found
}

/// Whether the panel is open after an operation runs on a panel that was
/// open or closed as given.
pub open spec fn devtools_after(devtools_open: bool, op: Option<DevToolsOp>) -> bool {
    match op {
        Some(DevToolsOp::Open) => true,
        Some(DevToolsOp::Close) => false,
        None => devtools_open,
    }
}

/// Decides a devtools toggle. In a release build the command is unavailable
/// and no panel operation is ever performed; in a debug build it opens a
/// closed panel and closes an open one, failing only when the main window
/// is missing.
pub fn toggle_dev_tools(mode: BuildMode, window_found: bool, devtools_open: bool) -> (r:
    ToggleOutcome)
    ensures
        r.response.wf(),
        r.op == toggle_op(mode, window_found, devtools_open),
        r.response.success == toggle_succeeds(mode, window_found),
        r.response.data is None,
        mode is Release ==> r.response.msg@ == msg_devtools_unavailable(),
        mode is Debug && !window_found ==> r.response.msg@ == msg_main_window_missing(),
        mode is Debug && window_found && devtools_open ==> r.response.msg@
            == msg_devtools_closed(),
        mode is Debug && window_found && !devtools_open ==> r.response.msg@
            == msg_devtools_opened(),
{
    match mode {
        BuildMode::Release => ToggleOutcome {
            op: None,
            response: CommandResponse::error(
                String::from_str("开发者工具仅在调试模式下可用"),
            ),
        },
        BuildMode::Debug => {
            if !window_found {
                ToggleOutcome {
                    op: None,
                    response: CommandResponse::error(String::from_str("未找到主窗口")),
                }
            } else if devtools_open {
                ToggleOutcome {
                    op: Some(DevToolsOp::Close),
                    response: CommandResponse::success(
                        String::from_str("开发者工具已关闭"),
                        None,
                    ),
                }
            } else {
                ToggleOutcome {
                    op: Some(DevToolsOp::Open),
                    response: CommandResponse::success(
                        String::from_str("开发者工具已打开"),
                        None,
                    ),
                }
            }
        },
    }
}

/// Decides a quit command: answer success, then exit with status 0.
pub fn quit_app() -> (r: QuitDecision)
    ensures
        r.response.wf(),
        r.response.success,
        r.response.data is None,
        r.response.msg@ == msg_quitting(),
        r.exit_code == 0,
{
    QuitDecision {
        exit_code: 0,
        response: CommandResponse::success(
            String::from_str("应用程序即将退出"),
            None,
        ),
    }
}

/// Wraps a system-information snapshot in the envelope: a collected snapshot
/// is passed through as the payload, an internal failure becomes a failure
/// envelope that carries the error's own text, never a transport fault.
pub fn get_system_info(snapshot: Result<serde_json::Value, String>) -> (r: CommandResponse)
    ensures
        r.wf(),
        snapshot matches Ok(v) ==> r.success && r.data == Some(v) && r.msg@ == msg_system_info(),
        snapshot matches Err(m) ==> !r.success && r.data is None && r.msg@ == m@,
{
    match snapshot {
        Ok(v) => CommandResponse::success(
            String::from_str("system information collected"),
            Some(v),
        ),
        Err(m) => CommandResponse::error(m),
    }
}

/// In a release build toggling devtools never succeeds and never performs a
/// panel operation, whatever the window and panel state.
pub proof fn lemma_devtools_release_unavailable(window_found: bool, devtools_open: bool)
    ensures
        !toggle_succeeds(BuildMode::Release, window_found),
        toggle_op(BuildMode::Release, window_found, devtools_open) is None,
{
}

/// In a debug build with the main window present, toggling alternates: the
/// first toggle flips the panel and succeeds, and a second toggle from the
/// state the first one left flips it back and succeeds again.
pub proof fn lemma_devtools_alternates(devtools_open: bool)
    ensures
        toggle_succeeds(BuildMode::Debug, true),
        devtools_after(devtools_open, toggle_op(BuildMode::Debug, true, devtools_open))
            == !devtools_open,
        devtools_after(
            !devtools_open,
            toggle_op(BuildMode::Debug, true, !devtools_open),
        ) == devtools_open,
{
}

} // verus!
