use ticket_store::error::Error;
use ticket_store::hello::hello_html;
use ticket_store::login::{api_login, LoginPayload};

#[test]
fn every_error_is_shown_the_same() {
    let a = Error::LoginFail.into_response();
    let b = Error::TicketDeleteFailIdNotFound { id: 0 }.into_response();
    let c = Error::TicketDeleteFailIdNotFound { id: u64::MAX }.into_response();
    assert_eq!((a.status, a.body.as_str()), (500, "UNHANDLED_CLIENT_ERROR"));
    assert_eq!((b.status, b.body.as_str()), (500, "UNHANDLED_CLIENT_ERROR"));
    assert_eq!((c.status, c.body.as_str()), (500, "UNHANDLED_CLIENT_ERROR"));
}

#[test]
fn the_record_keeps_kind_and_fields() {
    assert_eq!(Error::LoginFail.into_response().record, Error::LoginFail);
    assert_eq!(
        Error::TicketDeleteFailIdNotFound { id: 42 }.into_response().record,
        Error::TicketDeleteFailIdNotFound { id: 42 }
    );
    assert_ne!(
        Error::TicketDeleteFailIdNotFound { id: 42 }.into_response().record,
        Error::TicketDeleteFailIdNotFound { id: 43 }
    );
}

#[test]
fn the_record_prints_kind_and_fields() {
    let r = Error::TicketDeleteFailIdNotFound { id: 7 }.into_response();
    assert_eq!(format!("{:?}", r.record), "TicketDeleteFailIdNotFound { id: 7 }");
    assert_eq!(format!("{:?}", Error::LoginFail.into_response().record), "LoginFail");
}

fn payload(username: &str, pwd: &str) -> LoginPayload {
    LoginPayload { username: username.to_string(), pwd: pwd.to_string() }
}

#[test]
fn login_accepts_the_demo_credentials() {
    assert_eq!(api_login(&payload("demo1", "welcome")).unwrap(), "user-1.exp.signature");
}

#[test]
fn login_rejects_everything_else() {
    assert_eq!(api_login(&payload("demo1", "wrong")).unwrap_err(), Error::LoginFail);
    assert_eq!(api_login(&payload("demo2", "welcome")).unwrap_err(), Error::LoginFail);
    assert_eq!(api_login(&payload("", "")).unwrap_err(), Error::LoginFail);
    assert_eq!(api_login(&payload("welcome", "demo1")).unwrap_err(), Error::LoginFail);
    assert_eq!(api_login(&payload("Demo1", "welcome")).unwrap_err(), Error::LoginFail);
    assert_eq!(api_login(&payload("demo1", "welcome ")).unwrap_err(), Error::LoginFail);
}

#[test]
fn login_failure_is_shown_like_any_other() {
    let r = api_login(&payload("x", "y")).unwrap_err().into_response();
    assert_eq!((r.status, r.body.as_str()), (500, "UNHANDLED_CLIENT_ERROR"));
    assert_eq!(r.record, Error::LoginFail);
}

#[test]
fn hello_greets_the_name_given() {
    assert_eq!(hello_html(Some("Jen")), "Hello <strong> Jen </strong>");
    assert_eq!(hello_html(Some("")), "Hello <strong>  </strong>");
}

#[test]
fn hello_greets_the_world_by_default() {
    assert_eq!(hello_html(None), "Hello <strong> World! </strong>");
}
