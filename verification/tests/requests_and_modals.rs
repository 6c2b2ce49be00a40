use borkcraftclient::modal_machines::{ModalMachineGear, Page, act_on_tooth, choose_page, modal_machine};
use borkcraftclient::requests::{
    HttpReply, Otherwise, ResponseResult, TransportError, keyset_pagination_url,
    match_out_nether_portal_keys_to_string2, netherportal_save_status, status_check,
    ureq_did_request_go_through_f,
};

fn reply(status: u16, text: &str, body: Result<&str, &str>) -> Result<HttpReply, TransportError> {
    Ok(HttpReply {
        status,
        status_text: text.to_string(),
        body: body.map(|s| s.to_string()).map_err(|s| s.to_string()),
    })
}

#[test]
fn body_text_of_accepted_answers() {
    assert_eq!(match_out_nether_portal_keys_to_string2(reply(200, "OK", Ok("keys"))).unwrap(), "keys");
    assert_eq!(match_out_nether_portal_keys_to_string2(reply(299, "", Ok(""))).unwrap(), "");
    let e = match_out_nether_portal_keys_to_string2(reply(200, "OK", Err("cut short"))).unwrap_err();
    assert_eq!(
        e.error.unwrap(),
        "Failed to convert response to a variant of type Enum ResponseResult...: error ==cut short"
    );
}

#[test]
fn refused_and_unanswered_requests() {
    let e = match_out_nether_portal_keys_to_string2(reply(300, "Multiple Choices", Ok("x"))).unwrap_err();
    assert_eq!(
        e.error.unwrap(),
        "network was sent but denied by the server... Maybe wrong key was given? [retrieving nether portal keys]: error ==Multiple Choices"
    );
    let e = match_out_nether_portal_keys_to_string2(reply(199, "Early", Ok("x"))).unwrap_err();
    assert!(e.error.unwrap().ends_with("error ==Early"));
    let failed = Err(TransportError { kind: "Dns".to_string(), message: "no such host".to_string() });
    let e = match_out_nether_portal_keys_to_string2(failed).unwrap_err();
    assert_eq!(e.error.unwrap(), "Dns: no such host");
    assert!(e.is_window_open);
}

#[test]
fn job_runs_only_on_success() {
    let r = ureq_did_request_go_through_f(reply(201, "Created", Ok("")), |r: HttpReply| {
        Ok(ResponseResult::Text(format!("{}", r.status)))
    });
    assert!(matches!(r, Ok(ResponseResult::Text(ref t)) if t == "201"));
    let r = ureq_did_request_go_through_f(reply(404, "Not Found", Ok("")), |_r: HttpReply| -> Result<ResponseResult, String> {
        panic!("not called")
    });
    assert!(r.is_err());
}

#[test]
fn status_checks() {
    assert_eq!(status_check(202), Ok(()));
    assert_eq!(status_check(403), Err("status_code: -> |403|; ".to_string()));
    assert_eq!(
        status_check(500),
        Err("The server has denied/disaproved our request...? status_code: -> |500|".to_string())
    );
    assert_eq!(status_check(0).unwrap_err(), "The server has denied/disaproved our request...? status_code: -> |0|");
    assert_eq!(netherportal_save_status(202), Ok(()));
    assert_eq!(netherportal_save_status(200), Err("Status is NOT 202: status -> |200|".to_string()));
    assert_eq!(netherportal_save_status(65535).unwrap_err(), "Status is NOT 202: status -> |65535|");
}

#[test]
fn otherwise_appends_context() {
    let ok: Result<(), String> = Ok(());
    assert_eq!(ok.otherwise(" later"), Ok(()));
    let err: Result<(), String> = Err("failed".to_string());
    assert_eq!(err.otherwise("; not added"), Err("failed; not added".to_string()));
}

#[test]
fn pagination_url() {
    assert_eq!(keyset_pagination_url("http://h/p", -1, 5), "http://h/p?offset=-1&limit=5");
}

#[test]
fn selector_picks_clicked_tooth() {
    let teeth = vec!["Login".to_string(), "Nether Portals".to_string()];
    let mut selected = String::new();
    assert_eq!(modal_machine(&mut selected, &ModalMachineGear::Immutable(&teeth), None), None);
    assert_eq!(selected, "");
    let tooth = modal_machine(&mut selected, &ModalMachineGear::Immutable(&teeth), Some(1));
    assert_eq!(tooth, Some("Nether Portals".to_string()));
    assert_eq!(selected, "Nether Portals");
    assert_eq!(modal_machine(&mut selected, &ModalMachineGear::Immutable(&teeth), Some(2)), None);
    assert_eq!(selected, "Nether Portals");
    let mut owned = teeth.clone();
    assert_eq!(ModalMachineGear::Mutable(&mut owned).teeth().len(), 2);
}

#[test]
fn acting_on_a_tooth() {
    let mut seen = Vec::new();
    act_on_tooth(Some("Spawn".to_string()), |t| seen.push(t.to_string()));
    act_on_tooth(None, |t| seen.push(t.to_string()));
    assert_eq!(seen, vec!["Spawn".to_string()]);
}

#[test]
fn pages() {
    assert_eq!(choose_page("Login", false), Page::Login);
    assert_eq!(choose_page("Nether Portals", true), Page::NetherPortals);
    assert_eq!(choose_page("Nether Portals", false), Page::PleaseLogIn);
    assert_eq!(choose_page("", true), Page::Elsewhere);
}

#[test]
fn starts_happen_once() {
    let mut gate = borkcraftclient::startup::StartOnce::new();
    assert!(gate.start());
    assert!(!gate.start());
    assert!(!gate.start());
}
