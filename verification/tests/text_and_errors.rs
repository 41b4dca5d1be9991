use service_dashboard::log::ServiceLog;
use service_dashboard::errors::get_user_friendly_error;
use service_dashboard::text::reverse_lines;

#[test]
fn reversed_log_basic() {
    let log = ServiceLog::new();
    assert_eq!(log.reversed_log("a\nb\nc".to_string()), "c\nb\na");
}

#[test]
fn reversed_log_single_line() {
    let log = ServiceLog::new();
    assert_eq!(log.reversed_log("only".to_string()), "only");
}

#[test]
fn reversed_log_empty() {
    let log = ServiceLog::new();
    assert_eq!(log.reversed_log(String::new()), "");
}

#[test]
fn reversed_log_trailing_newline() {
    let log = ServiceLog::new();
    assert_eq!(log.reversed_log("a\nb\n".to_string()), "\nb\na");
}

#[test]
fn reversed_log_involutive_samples() {
    for s in ["a\nb\nc", "", "x", "a\n\nb", "\nlead", "trail\n", "a\nb\nc\nd\ne"] {
        assert_eq!(reverse_lines(&reverse_lines(s)), s);
    }
}

#[test]
fn update_rereverses_what_it_is_given() {
    let mut log = ServiceLog::new();
    log.update("svc".to_string(), "a\nb\nc".to_string());
    assert_eq!(log.log_text.as_deref(), Some("c\nb\na"));
    // feeding the already-reversed text back reverses it again
    let shown = log.log_text.clone().unwrap();
    log.update("svc".to_string(), shown);
    assert_eq!(log.log_text.as_deref(), Some("a\nb\nc"));
}

#[test]
fn error_access_denied_maps_to_fixed_sentence() {
    let raw = "call failed: org.freedesktop.DBus.Error.AccessDenied: not allowed";
    assert_eq!(
        get_user_friendly_error(raw),
        "Access denied. You don't have sufficient permissions for this operation."
    );
}

#[test]
fn error_interactive_authorization() {
    let raw = "org.freedesktop.DBus.Error.InteractiveAuthorizationRequired";
    assert_eq!(
        get_user_friendly_error(raw),
        "You do not have the permission to do that. Try running the program with sudo."
    );
}

#[test]
fn error_service_unknown() {
    let raw = "x org.freedesktop.DBus.Error.ServiceUnknown y";
    assert_eq!(
        get_user_friendly_error(raw),
        "The requested service is not available or not running."
    );
}

#[test]
fn error_no_reply() {
    let raw = "org.freedesktop.DBus.Error.NoReply";
    assert_eq!(
        get_user_friendly_error(raw),
        "The service did not respond in time. It might be busy or not functioning properly."
    );
}

#[test]
fn error_no_such_unit() {
    let raw = "org.freedesktop.systemd1.NoSuchUnit";
    assert_eq!(get_user_friendly_error(raw), "The requested service unit doesn't exist.");
}

#[test]
fn error_unrecognized_passes_through() {
    let raw = "something completely different went wrong";
    assert_eq!(get_user_friendly_error(raw), raw);
}

#[test]
fn error_priority_order() {
    // both markers present: the earlier one in priority order wins
    let raw = "org.freedesktop.DBus.Error.ServiceUnknown org.freedesktop.DBus.Error.AccessDenied";
    assert_eq!(
        get_user_friendly_error(raw),
        "The requested service is not available or not running."
    );
}

#[test]
fn reversed_log_non_ascii_text() {
    assert_eq!(reverse_lines("caf\u{e9}\n\u{fc}ber\nz"), "z\n\u{fc}ber\ncaf\u{e9}");
    assert_eq!(reverse_lines(&reverse_lines("caf\u{e9}\n\u{fc}ber")), "caf\u{e9}\n\u{fc}ber");
}
