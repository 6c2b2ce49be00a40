use borkcraftclient::errors::ErrorMessage;
use borkcraftclient::login::{
    LoginForm, apply_login_result, did_logout_succeed, finish_logout,
    handle_response_failure, login_response_to_session_information, try_access_rights_from_reply,
};
use borkcraftclient::requests::{HttpReply, ResponseResult, TransportError};
use borkcraftclient::sessions::{
    SessionInformation, SessionTime, TimeTime, session_expired, session_reply_has_time,
    session_time_tick, write_session,
};

fn time(h: &str, m: &str, s: &str) -> TimeTime {
    TimeTime { hour: h.to_string(), minute: m.to_string(), second: s.to_string() }
}

#[test]
fn session_message_shows_the_time() {
    let mut info = SessionInformation::default();
    let t = time("1", "02", "3\"");
    let expected = format!("session time remaining: \n{:?}", t);
    write_session(&mut info, t);
    assert_eq!(info.window_message.message, Some(expected));
    assert_eq!(info.time, time("1", "02", "3\""));
    assert_eq!(
        info.window_message.message.as_deref(),
        Some("session time remaining: \nTimeTime { hour: \"1\", minute: \"02\", second: \"3\\\"\" }")
    );
}

#[test]
fn expiry_compares_like_strings() {
    assert!(session_expired(&time("0", "0", "0")));
    assert!(session_expired(&time("", "00", "0")));
    assert!(!session_expired(&time("0", "0", "1")));
    assert!(!session_expired(&time("0", "10", "0")));
    assert!(!session_expired(&time("é", "0", "0")));
    for (h, m, s) in [("0", "0", "0"), ("1", "0", "0"), ("", "", ""), ("-1", "9", "0"), ("0", "0", "10")] {
        let expected = h.to_string() < "1".to_string() && m.to_string() < "1".to_string() && s.to_string() < "1".to_string();
        assert_eq!(session_expired(&time(h, m, s)), expected);
    }
}

#[test]
fn session_tick_logs_out_when_time_is_up() {
    let mut info = SessionInformation::default();
    info.is_logged_in = true;
    session_time_tick(&mut info, Some(time("0", "5", "0")));
    assert!(info.is_logged_in);
    session_time_tick(&mut info, None);
    assert!(info.is_logged_in);
    assert_eq!(info.time, time("", "", ""));
    session_time_tick(&mut info, Some(time("0", "0", "0")));
    assert!(!info.is_logged_in);
    session_time_tick(&mut info, Some(time("5", "0", "0")));
    assert!(!info.is_logged_in);
    assert!(session_reply_has_time(202));
    assert!(!session_reply_has_time(200));
}

#[test]
fn login_form_members() {
    let mut form = LoginForm::default();
    *form.index_mut("username") = "alex".to_string();
    *form.index_mut("password") = "hunter2".to_string();
    form.session_key = "k".to_string();
    assert_eq!(form.index("username"), "alex");
    assert_eq!(form.get("password").unwrap(), "hunter2");
    assert_eq!(form.get("session_key").unwrap(), "k");
    assert_eq!(form.get("email").unwrap_err(), "This struct member: |email| does not exist");
    assert_eq!(form.clone(), form);
}

#[test]
fn friendly_failures() {
    assert_eq!(handle_response_failure("403"), Some("Your request was deemed invalid: 403".to_string()));
    assert_eq!(
        handle_response_failure("timed out"),
        Some("Your network request did not go through: timed out".to_string())
    );
}

#[test]
fn logout_outcomes() {
    let ok = Ok(HttpReply { status: 202, status_text: "Accepted".to_string(), body: Ok(String::new()) });
    assert_eq!(did_logout_succeed(ok), None);
    let failed = Err(TransportError { kind: "Io".to_string(), message: "connection refused".to_string() });
    let e = did_logout_succeed(failed).unwrap();
    assert_eq!(e.error, Some("Your network request did not go through: connection refused".to_string()));
    assert!(e.is_window_open);

    let mut form = LoginForm::default();
    form.username = "alex".to_string();
    let mut session = SessionInformation::default();
    session.is_logged_in = true;
    let mut error = ErrorMessage::default();
    finish_logout(&mut form, &mut session, &mut error, Some(e));
    assert!(session.is_logged_in);
    assert!(error.error.is_some());
    finish_logout(&mut form, &mut session, &mut error, None);
    assert!(!session.is_logged_in);
    assert_eq!(form, LoginForm::default());
}

#[test]
fn login_outcomes() {
    let st = SessionTime { key: "abc".to_string(), time: time("1", "0", "0") };
    let info = login_response_to_session_information(st);
    assert!(info.is_logged_in);
    assert_eq!(info.key, "abc");
    assert!(info.access_rights.is_empty());

    let mut form = LoginForm::default();
    let mut session = SessionInformation::default();
    let mut error = ErrorMessage::default();
    apply_login_result(&mut form, &mut session, &mut error, Ok(ResponseResult::SessionInformation(info)));
    assert_eq!(form.session_key, "abc");
    assert!(session.is_logged_in);
    let refused = ErrorMessage::pure_error_message(Some("no".to_string()));
    apply_login_result(&mut form, &mut session, &mut error, Err(refused));
    assert_eq!(error.error, Some("no".to_string()));
    assert_eq!(session.key, "abc");
}

#[test]
fn access_rights_from_json() {
    let text = r#"{"access_rights": ["Spawn", "Village"], "other": []}"#;
    assert_eq!(try_access_rights_from_reply(text), Some(vec!["Spawn".to_string(), "Village".to_string()]));
    assert_eq!(try_access_rights_from_reply(r#"{"rights": ["Spawn"]}"#), None);
    assert_eq!(try_access_rights_from_reply("not json"), None);
    assert_eq!(try_access_rights_from_reply(r#"{"access_rights": [1]}"#), None);
}

#[test]
fn error_window_button() {
    let mut e = ErrorMessage::default();
    assert!(e.impure_open_error_window_on_click(true));
    assert!(e.try_to_open_window);
    e.impure_set_error_message(Some("boom".to_string()), false);
    assert!(!e.impure_open_error_window_on_click(false));
    assert!(e.is_window_open);
    assert!(!e.try_to_open_window);
    assert!(!e.impure_open_error_window_on_click(false));
}

#[test]
fn logout_closes_the_session_window() {
    let mut form = LoginForm::default();
    let mut session = SessionInformation::default();
    session.is_logged_in = true;
    session.window_message.message = Some("session time remaining".to_string());
    session.window_message.is_window_open = true;
    session.window_message.try_to_open_window = true;
    let mut error = ErrorMessage::default();
    finish_logout(&mut form, &mut session, &mut error, None);
    assert_eq!(session, SessionInformation::default());
}

#[test]
fn session_tick_keeps_the_window_flags() {
    let mut info = SessionInformation::default();
    info.window_message.is_window_open = true;
    info.window_message.try_to_open_window = true;
    session_time_tick(&mut info, Some(time("1", "2", "3")));
    assert!(info.window_message.is_window_open);
    assert!(info.window_message.try_to_open_window);
    assert!(info.window_message.message.is_some());
}
