use service_dashboard::app::{details_worker_tick, log_worker_tick, App, Status};
use service_dashboard::events::{Actions, AppEvent, Effect, Key, KeyInput, Service};

fn key(code: Key) -> AppEvent {
    AppEvent::Key(KeyInput { code, ctrl: false })
}

fn svc(name: &str) -> Service {
    Service { name: name.to_string(), description: None }
}

fn app_with_services(names: &[&str]) -> App {
    let mut app = App::new();
    app.set_services(names.iter().map(|n| svc(n)).collect());
    app
}

#[test]
fn initial_state_is_list_view() {
    let app = App::new();
    assert_eq!(app.status, Status::List);
    assert!(app.running);
    assert!(!app.service_log.auto_refresh);
    assert!(!app.details.auto_refresh);
}

#[test]
fn transition_go_log() {
    let mut app = app_with_services(&["sshd"]);
    let fx = app.dispatch(AppEvent::Action(Actions::GoLog));
    assert_eq!(app.status, Status::Log);
    assert!(!app.service_log.auto_refresh);
    assert_eq!(app.service_log.scroll, 0);
    assert!(app.service_log.log_text.is_none());
    assert_eq!(fx.len(), 2);
    assert!(matches!(fx[0], Effect::Emit(AppEvent::Action(Actions::RefreshLog))));
    assert!(matches!(fx[1], Effect::StartLogWorker));
}

#[test]
fn transition_go_details_copies_selection() {
    let mut app = app_with_services(&["sshd", "cron"]);
    let fx = app.dispatch(AppEvent::Action(Actions::GoDetails));
    assert_eq!(app.status, Status::Details);
    assert_eq!(app.details.service.as_ref().map(|s| s.name.as_str()), Some("sshd"));
    assert_eq!(fx.len(), 2);
    assert!(matches!(fx[0], Effect::Emit(AppEvent::Action(Actions::RefreshDetails))));
    assert!(matches!(fx[1], Effect::StartDetailsWorker));
}

#[test]
fn transition_go_list() {
    let mut app = app_with_services(&["sshd"]);
    app.dispatch(AppEvent::Action(Actions::GoLog));
    let fx = app.dispatch(AppEvent::Action(Actions::GoList));
    assert_eq!(app.status, Status::List);
    assert!(fx.is_empty());
}

#[test]
fn navigating_away_from_log_clears_auto_refresh() {
    let mut app = app_with_services(&["sshd"]);
    app.dispatch(AppEvent::Action(Actions::GoLog));
    // enable auto-refresh with 'a'
    let fx = app.dispatch(key(Key::Char('a')));
    assert!(app.service_log.auto_refresh);
    assert!(matches!(fx[0], Effect::StartLogWorker));
    // navigate away: the flag must be forced off
    app.dispatch(AppEvent::Action(Actions::GoList));
    assert!(!app.service_log.auto_refresh);
}

#[test]
fn navigating_away_from_details_clears_auto_refresh() {
    let mut app = app_with_services(&["sshd"]);
    app.dispatch(AppEvent::Action(Actions::GoDetails));
    app.dispatch(key(Key::Char('a')));
    assert!(app.details.auto_refresh);
    app.dispatch(AppEvent::Action(Actions::GoLog));
    assert!(!app.details.auto_refresh);
}

#[test]
fn leaving_log_by_key_resets_view() {
    let mut app = app_with_services(&["sshd"]);
    app.dispatch(AppEvent::Action(Actions::GoLog));
    app.dispatch(key(Key::Char('a')));
    app.dispatch(key(Key::Down));
    assert_eq!(app.service_log.scroll, 1);
    let fx = app.dispatch(key(Key::Char('q')));
    assert!(!app.service_log.auto_refresh);
    assert_eq!(app.service_log.scroll, 0);
    assert!(matches!(fx[0], Effect::Emit(AppEvent::Action(Actions::GoList))));
}

#[test]
fn filtering_narrows_in_original_order() {
    let mut app = app_with_services(&["sshd", "cron", "sshd-keygen"]);
    app.dispatch(key(Key::Down)); // move selection away from 0
    assert_eq!(app.table_service.selected_index, 1);
    let fx = app.dispatch(AppEvent::Action(Actions::Filter("ssh".to_string())));
    let names: Vec<&str> =
        app.table_service.filtered.iter().map(|s| s.name.as_str()).collect();
    assert_eq!(names, vec!["sshd", "sshd-keygen"]);
    assert_eq!(app.table_service.selected_index, 0);
    assert!(matches!(fx[0], Effect::QueryServiceList));
}

#[test]
fn empty_filter_returns_full_list() {
    let mut app = app_with_services(&["sshd", "cron", "sshd-keygen"]);
    app.dispatch(AppEvent::Action(Actions::Filter("ssh".to_string())));
    app.dispatch(AppEvent::Action(Actions::Filter(String::new())));
    let names: Vec<&str> =
        app.table_service.filtered.iter().map(|s| s.name.as_str()).collect();
    assert_eq!(names, vec!["sshd", "cron", "sshd-keygen"]);
    assert_eq!(app.table_service.selected_index, 0);
}

#[test]
fn scroll_never_below_zero() {
    let mut app = app_with_services(&["sshd"]);
    app.dispatch(AppEvent::Action(Actions::GoLog));
    for _ in 0..20 {
        app.dispatch(key(Key::Up));
        assert_eq!(app.service_log.scroll, 0);
        app.dispatch(key(Key::PageUp));
        assert_eq!(app.service_log.scroll, 0);
    }
}

#[test]
fn scroll_moves_and_saturates() {
    let mut app = app_with_services(&["sshd"]);
    app.dispatch(AppEvent::Action(Actions::GoLog));
    app.dispatch(key(Key::PageDown));
    assert_eq!(app.service_log.scroll, 10);
    app.dispatch(key(Key::Up));
    assert_eq!(app.service_log.scroll, 9);
    app.dispatch(key(Key::PageUp));
    assert_eq!(app.service_log.scroll, 0);
}

#[test]
fn error_in_details_resumes_details() {
    let mut app = app_with_services(&["sshd"]);
    app.dispatch(AppEvent::Action(Actions::GoDetails));
    assert_eq!(app.status, Status::Details);
    let fx = app.dispatch(AppEvent::Error(
        "org.freedesktop.DBus.Error.AccessDenied".to_string(),
    ));
    // the state is untouched: after the modal is dismissed the loop resumes
    // at the previously active view
    assert_eq!(app.status, Status::Details);
    assert_eq!(fx.len(), 1);
    match &fx[0] {
        Effect::ShowErrorModal(m) => assert_eq!(
            m,
            "Access denied. You don't have sufficient permissions for this operation."
        ),
        _ => panic!("expected the blocking error modal"),
    }
}

#[test]
fn error_keeps_running_flag_and_views() {
    let mut app = app_with_services(&["sshd"]);
    let fx = app.dispatch(AppEvent::Error("plain failure".to_string()));
    assert_eq!(app.status, Status::List);
    assert!(app.running);
    match &fx[0] {
        Effect::ShowErrorModal(m) => assert_eq!(m, "plain failure"),
        _ => panic!("expected the blocking error modal"),
    }
}

#[test]
fn refresh_log_only_while_log_active() {
    let mut app = app_with_services(&["sshd"]);
    // not in the log view: the action is ignored
    let fx = app.dispatch(AppEvent::Action(Actions::RefreshLog));
    assert!(fx.is_empty());
    app.dispatch(AppEvent::Action(Actions::GoLog));
    let fx = app.dispatch(AppEvent::Action(Actions::RefreshLog));
    assert_eq!(fx.len(), 1);
    match &fx[0] {
        Effect::FetchLog(s) => assert_eq!(s.name, "sshd"),
        _ => panic!("expected a one-shot log fetch"),
    }
}

#[test]
fn refresh_details_only_while_details_active() {
    let mut app = app_with_services(&["sshd"]);
    let fx = app.dispatch(AppEvent::Action(Actions::RefreshDetails));
    assert!(fx.is_empty());
    app.dispatch(AppEvent::Action(Actions::GoDetails));
    let fx = app.dispatch(AppEvent::Action(Actions::RefreshDetails));
    assert_eq!(fx.len(), 1);
    match &fx[0] {
        Effect::FetchDetails(s) => assert_eq!(s.name, "sshd"),
        _ => panic!("expected a one-shot details fetch"),
    }
}

#[test]
fn updatelog_stores_reversed_text() {
    let mut app = app_with_services(&["sshd"]);
    let fx = app.dispatch(AppEvent::Action(Actions::Updatelog((
        "sshd".to_string(),
        "old line\nnew line".to_string(),
    ))));
    assert!(fx.is_empty());
    assert_eq!(app.service_log.service_name, "sshd");
    assert_eq!(app.service_log.log_text.as_deref(), Some("new line\nold line"));
}

#[test]
fn ctrl_c_quits() {
    let mut app = app_with_services(&["sshd"]);
    app.dispatch(AppEvent::Key(KeyInput { code: Key::Char('c'), ctrl: true }));
    assert!(!app.is_running());
}

#[test]
fn plain_c_does_not_quit() {
    let mut app = app_with_services(&["sshd"]);
    app.dispatch(key(Key::Char('c')));
    assert!(app.is_running());
}

#[test]
fn worker_tick_emits_only_while_enabled() {
    assert!(matches!(log_worker_tick(true), Some(Actions::RefreshLog)));
    assert!(log_worker_tick(false).is_none());
    assert!(matches!(details_worker_tick(true), Some(Actions::RefreshDetails)));
    assert!(details_worker_tick(false).is_none());
}

#[test]
fn toggle_on_then_off_emits_nothing() {
    let mut app = app_with_services(&["sshd"]);
    app.dispatch(AppEvent::Action(Actions::GoLog));
    // toggle auto-refresh on, then off again before the worker's first wake
    app.dispatch(key(Key::Char('a')));
    app.dispatch(key(Key::Char('a')));
    assert!(!app.service_log.auto_refresh);
    // the worker's first observation is a cleared flag: zero refreshes
    assert!(log_worker_tick(app.service_log.auto_refresh).is_none());
}

#[test]
fn selection_moves_with_clamping() {
    let mut app = app_with_services(&["a", "b", "c"]);
    app.dispatch(key(Key::Up));
    assert_eq!(app.table_service.selected_index, 0);
    app.dispatch(key(Key::Down));
    app.dispatch(key(Key::Down));
    app.dispatch(key(Key::Down));
    assert_eq!(app.table_service.selected_index, 2);
}

#[test]
fn list_enter_navigates_to_details() {
    let mut app = app_with_services(&["a"]);
    let fx = app.dispatch(key(Key::Enter));
    assert_eq!(fx.len(), 1);
    assert!(matches!(fx[0], Effect::Emit(AppEvent::Action(Actions::GoDetails))));
}

#[test]
fn suppressed_list_ignores_keys() {
    let mut app = app_with_services(&["a", "b"]);
    app.dispatch(AppEvent::Action(Actions::UpdateIgnoreListKeys(true)));
    app.dispatch(key(Key::Down));
    assert_eq!(app.table_service.selected_index, 0);
    let fx = app.dispatch(key(Key::Enter));
    assert!(fx.is_empty());
    app.dispatch(AppEvent::Action(Actions::UpdateIgnoreListKeys(false)));
    app.dispatch(key(Key::Down));
    assert_eq!(app.table_service.selected_index, 1);
}

#[test]
fn filter_focus_and_editing() {
    let mut app = app_with_services(&["sshd", "cron"]);
    // slash grabs focus and asks to suppress list keys
    let fx = app.dispatch(key(Key::Char('/')));
    assert!(app.filter.focused);
    assert!(fx.iter().any(|e| matches!(
        e,
        Effect::Emit(AppEvent::Action(Actions::UpdateIgnoreListKeys(true)))
    )));
    // typed characters build the buffer and emit the filter text
    let fx = app.dispatch(key(Key::Char('s')));
    assert_eq!(app.filter.input, "s");
    assert!(fx.iter().any(|e| match e {
        Effect::Emit(AppEvent::Action(Actions::Filter(t))) => t == "s",
        _ => false,
    }));
    let fx = app.dispatch(key(Key::Backspace));
    assert_eq!(app.filter.input, "");
    assert!(fx.iter().any(|e| match e {
        Effect::Emit(AppEvent::Action(Actions::Filter(t))) => t.is_empty(),
        _ => false,
    }));
    // escape releases focus and re-enables the list keys
    let fx = app.dispatch(key(Key::Esc));
    assert!(!app.filter.focused);
    assert!(fx.iter().any(|e| matches!(
        e,
        Effect::Emit(AppEvent::Action(Actions::UpdateIgnoreListKeys(false)))
    )));
}

#[test]
fn set_services_clamps_selection() {
    let mut app = app_with_services(&["a", "b", "c"]);
    app.dispatch(key(Key::Down));
    app.dispatch(key(Key::Down));
    assert_eq!(app.table_service.selected_index, 2);
    app.set_services(vec![svc("only")]);
    assert_eq!(app.table_service.selected_index, 0);
    app.set_services(Vec::new());
    assert_eq!(app.table_service.selected_index, 0);
}

#[test]
fn shortcuts_end_with_exit_entry() {
    let mut app = app_with_services(&["a"]);
    let lines = app.shortcuts();
    assert_eq!(lines.last().map(|s| s.as_str()), Some("Exit: Ctrl + c"));
    app.dispatch(AppEvent::Action(Actions::GoLog));
    let lines = app.shortcuts();
    assert_eq!(lines.len(), 3);
    assert_eq!(lines[0], "Actions");
    assert!(lines[1].contains("Enable auto-refresh"));
    app.dispatch(key(Key::Char('a')));
    let lines = app.shortcuts();
    assert!(lines[1].contains("Disable auto-refresh"));
    assert_eq!(lines.last().map(|s| s.as_str()), Some("Exit: Ctrl + c"));
}

#[test]
fn selected_service_none_when_filtered_empty() {
    let mut app = app_with_services(&["alpha"]);
    app.dispatch(AppEvent::Action(Actions::Filter("zzz".to_string())));
    assert!(app.table_service.get_selected_service().is_none());
    // a refresh action with nothing selected fetches nothing
    app.dispatch(AppEvent::Action(Actions::GoLog));
    let fx = app.dispatch(AppEvent::Action(Actions::RefreshLog));
    assert!(fx.iter().all(|e| !matches!(e, Effect::FetchLog(_))));
}

#[test]
fn filter_longer_than_every_name_yields_empty() {
    let mut app = app_with_services(&["sshd", "cron"]);
    app.dispatch(AppEvent::Action(Actions::Filter("sshd-and-more".to_string())));
    assert!(app.table_service.filtered.is_empty());
    assert_eq!(app.table_service.selected_index, 0);
}
