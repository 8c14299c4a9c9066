use app_shell::commands::{quit_app, toggle_dev_tools, BuildMode, DevToolsOp};
use app_shell::commands::get_system_info;
use app_shell::dialogs::{
    file_manager_response, multi_pick_response, pick_response, MultiPickOutcome, PickOutcome,
};
use app_shell::envelope::CommandResponse;
use app_shell::instance::second_instance_plan;
use app_shell::tray::{handle_tray_click, tray_menu, TrayMenuItem};
use app_shell::window::{
    route_window_event, run_plan, run_plan_attempts, RouterAction, WindowEventKind, WindowOp,
    WindowState,
};

fn minimized() -> WindowState {
    WindowState { visible: false, minimized: true, focused: false }
}

#[test]
fn envelope_success_keeps_payload() {
    let v = serde_json::Value::Bool(true);
    let r = CommandResponse::success(String::from("ok"), Some(v.clone()));
    assert!(r.success);
    assert_eq!(r.msg, "ok");
    assert_eq!(r.data, Some(v));
}

#[test]
fn envelope_error_has_no_payload() {
    let r = CommandResponse::error(String::from("broken"));
    assert!(!r.success);
    assert_eq!(r.msg, "broken");
    assert_eq!(r.data, None);
}

#[test]
fn second_instance_restores_minimized_window() {
    let plan = second_instance_plan(true);
    assert_eq!(plan, vec![WindowOp::Show, WindowOp::Unminimize, WindowOp::SetFocus]);
    let after = run_plan(minimized(), &plan);
    assert!(after.visible);
    assert!(!after.minimized);
    assert!(after.focused);
}

#[test]
fn second_instance_without_window_does_nothing() {
    let plan = second_instance_plan(false);
    assert!(plan.is_empty());
    let before = minimized();
    let after = run_plan(before, &plan);
    assert_eq!(after, before);
}

#[test]
fn restore_failures_are_isolated() {
    let plan = second_instance_plan(true);
    // The show call fails at the OS; un-minimize and focus still run.
    let ok = vec![false, true, true];
    let after = run_plan_attempts(minimized(), &plan, &ok);
    assert!(!after.visible);
    assert!(!after.minimized);
    assert!(after.focused);
}

#[test]
fn devtools_release_is_unavailable() {
    let r = toggle_dev_tools(BuildMode::Release, true, true);
    assert!(!r.response.success);
    assert_eq!(r.op, None);
    assert_eq!(r.response.msg, "开发者工具仅在调试模式下可用");
    assert_eq!(r.response.data, None);
}

#[test]
fn devtools_debug_alternates() {
    let first = toggle_dev_tools(BuildMode::Debug, true, false);
    assert!(first.response.success);
    assert_eq!(first.op, Some(DevToolsOp::Open));
    assert_eq!(first.response.msg, "开发者工具已打开");
    let second = toggle_dev_tools(BuildMode::Debug, true, true);
    assert!(second.response.success);
    assert_eq!(second.op, Some(DevToolsOp::Close));
    assert_eq!(second.response.msg, "开发者工具已关闭");
}

#[test]
fn devtools_debug_without_window_fails() {
    let r = toggle_dev_tools(BuildMode::Debug, false, false);
    assert!(!r.response.success);
    assert_eq!(r.op, None);
    assert_eq!(r.response.msg, "未找到主窗口");
}

#[test]
fn quit_answers_success_and_exits_zero() {
    let q = quit_app();
    assert!(q.response.success);
    assert_eq!(q.exit_code, 0);
    assert_eq!(q.response.msg, "应用程序即将退出");
    assert_eq!(q.response.data, None);
}

#[test]
fn system_info_snapshot_rides_along() {
    let snapshot = serde_json::Value::String(String::from("host"));
    let r = get_system_info(Ok(snapshot.clone()));
    assert!(r.success);
    assert_eq!(r.data, Some(snapshot));
}

#[test]
fn system_info_failure_becomes_envelope() {
    let r = get_system_info(Err(String::from("collector failed")));
    assert!(!r.success);
    assert_eq!(r.msg, "collector failed");
    assert_eq!(r.data, None);
}

#[test]
fn chosen_path_is_encoded_as_json_string() {
    let r = pick_response(PickOutcome::Chosen(String::from("/tmp/a.txt")));
    assert!(r.success);
    assert_eq!(r.data, Some(serde_json::Value::String(String::from("/tmp/a.txt"))));
}

#[test]
fn chosen_paths_are_encoded_as_json_array() {
    let paths = vec![String::from("/a"), String::from("/b")];
    let r = multi_pick_response(MultiPickOutcome::Chosen(paths));
    assert!(r.success);
    let expected = serde_json::Value::Array(vec![
        serde_json::Value::String(String::from("/a")),
        serde_json::Value::String(String::from("/b")),
    ]);
    assert_eq!(r.data, Some(expected));
}

#[test]
fn cancellation_differs_from_failure() {
    let cancelled = pick_response(PickOutcome::Cancelled);
    let failed = pick_response(PickOutcome::Failed(String::from("no display")));
    assert!(cancelled.success);
    assert_eq!(cancelled.data, None);
    assert!(!failed.success);
    assert_eq!(failed.msg, "no display");
    assert_ne!(cancelled.success, failed.success);

    let cancelled_many = multi_pick_response(MultiPickOutcome::Cancelled);
    let failed_many = multi_pick_response(MultiPickOutcome::Failed(String::from("no display")));
    assert!(cancelled_many.success);
    assert_eq!(cancelled_many.data, None);
    assert!(!failed_many.success);
}

#[test]
fn file_manager_outcomes() {
    let ok = file_manager_response(Ok(()));
    assert!(ok.success);
    assert_eq!(ok.data, None);
    let err = file_manager_response(Err(String::from("path does not exist")));
    assert!(!err.success);
    assert_eq!(err.msg, "path does not exist");
}

#[test]
fn close_request_is_turned_into_hide() {
    assert_eq!(
        route_window_event(WindowEventKind::CloseRequested),
        Some(RouterAction::HideInsteadOfClose)
    );
    assert_eq!(route_window_event(WindowEventKind::Focused), None);
    assert_eq!(route_window_event(WindowEventKind::Resized), None);
    assert_eq!(route_window_event(WindowEventKind::Moved), None);
    assert_eq!(route_window_event(WindowEventKind::Destroyed), None);
}

#[test]
fn hidden_window_is_restored_by_tray_show() {
    let visible = WindowState { visible: true, minimized: false, focused: true };
    // Close request: the router hides the window instead of ending the process.
    let hidden = run_plan(visible, &vec![WindowOp::Hide]);
    assert!(!hidden.visible);
    // Tray "show" brings it back.
    let decision = handle_tray_click(TrayMenuItem::Show, true);
    assert_eq!(decision.exit_code, None);
    assert_eq!(decision.plan, second_instance_plan(true));
    let restored = run_plan(hidden, &decision.plan);
    assert!(restored.visible && !restored.minimized && restored.focused);
}

#[test]
fn tray_quit_exits_zero() {
    let decision = handle_tray_click(TrayMenuItem::Quit, true);
    assert_eq!(decision.exit_code, Some(0));
    assert!(decision.plan.is_empty());
}

#[test]
fn tray_show_without_window_does_nothing() {
    let decision = handle_tray_click(TrayMenuItem::Show, false);
    assert_eq!(decision.exit_code, None);
    assert!(decision.plan.is_empty());
}

#[test]
fn tray_menu_offers_show_and_quit() {
    assert_eq!(tray_menu(), vec![TrayMenuItem::Show, TrayMenuItem::Quit]);
}
