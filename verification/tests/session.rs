use roboat::error::UploadError;
use roboat::session::Session;

#[test]
fn cookie_is_returned_as_supplied() {
    let session = Session::new(Some("C".to_string()));
    assert_eq!(session.get_cookie(), Ok("C".to_string()));
}

#[test]
fn absent_cookie_is_missing_auth_not_empty() {
    let session = Session::new(None);
    assert_eq!(session.get_cookie(), Err(UploadError::MissingAuth));
    let empty = Session::new(Some(String::new()));
    assert_eq!(empty.get_cookie(), Ok(String::new()));
}

#[test]
fn token_starts_empty_and_emptiness_is_not_an_error() {
    let session = Session::new(Some("C".to_string()));
    assert_eq!(session.get_token(), "");
}

#[test]
fn set_token_overwrites_and_keeps_cookie() {
    let mut session = Session::new(Some("C".to_string()));
    session.set_token("first".to_string());
    assert_eq!(session.get_token(), "first");
    session.set_token("second".to_string());
    assert_eq!(session.get_token(), "second");
    assert_eq!(session.get_cookie(), Ok("C".to_string()));
}
