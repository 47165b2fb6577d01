//! The authenticated-operation protocol: classify each transport outcome,
//! refresh the token from a rejection that carries a replacement, and retry
//! exactly once.
//!
//! The functions here never perform I/O. An unverified driver runs the
//! loop: [`start_upload`] either fails fast or yields the first request to
//! send; the driver sends it and feeds the outcome to
//! [`on_first_response`], which either finishes or — after storing the
//! replacement token — yields the one retry request; the driver sends that
//! and [`on_second_response`] maps the outcome, which is final whatever it
//! is. [`operation_model`] states the whole exchange as one spec function,
//! which the lemmas in [`crate::laws`] are proved against.

use crate::asset::NewStudioAsset;
use crate::error::UploadError;
use crate::session::Session;
use crate::wire::{build_request, wire_request_ok, WireRequest};
use vstd::prelude::*;
use vstd::string::*;

verus! {

/// What the transport hands back from one attempt: either the exchange
/// itself failed, or the service answered. `token_header` is the value of
/// the well-known response header that carries a replacement token, `None`
/// when that header is absent or not readable as text.
pub enum TransportEvent {
    Failure { message: String },
    Response { status: u16, token_header: Option<String>, body: String },
}

/// How one attempt's outcome is interpreted:
/// - a transport failure is passed through as-is;
/// - a `2xx` response succeeds with the whole body text as the identifier;
/// - a `403` with a non-empty replacement token is the token-invalid
///   signal, carrying that replacement;
/// - a `403` whose replacement token is absent or empty is a malformed
///   refresh signal — never a silent retry with an empty token;
/// - any other status is a plain rejection, with status and body kept.
pub open spec fn classify_model(e: TransportEvent) -> Result<String, UploadError> {
    match e {
        TransportEvent::Failure { message } => Err(UploadError::TransportFailure { message }),
        TransportEvent::Response { status, token_header, body } => {
            if 200 <= status < 300 {
                Ok(body)
            } else if status == 403 {
                if token_header matches Some(t) && t@.len() > 0 {
                    Err(UploadError::TokenInvalid { new_token: token_header->0 })
                } else {
                    Err(UploadError::MalformedRefreshSignal)
                }
            } else {
                Err(UploadError::RemoteRejected { status, body })
            }
        },
    }
}

/// Maps one attempt's outcome exactly as [`classify_model`] states.
pub fn classify_response(event: TransportEvent) -> (r: Result<String, UploadError>)
    ensures
        r == classify_model(event),
{
    match event {
        TransportEvent::Failure { message } => Err(UploadError::TransportFailure { message }),
        TransportEvent::Response { status, token_header, body } => {
            if 200 <= status && status < 300 {
                Ok(body)
            } else if status == 403 {
                match token_header {
                    Some(t) => {
                        if t.as_str().unicode_len() == 0 {
                            Err(UploadError::MalformedRefreshSignal)
                        } else {
                            Err(UploadError::TokenInvalid { new_token: t })
                        }
                    },
                    None => Err(UploadError::MalformedRefreshSignal),
                }
            } else {
                Err(UploadError::RemoteRejected { status, body })
            }
        },
    }
}

/// What the driver must do next: send a request, or stop with the result.
pub enum Step {
    Send { request: WireRequest },
    Finished { result: Result<String, UploadError> },
}

/// Begins an upload: fails fast with `MissingAuth` when no cookie was ever
/// supplied — before any request exists to send — and otherwise yields the
/// first attempt, built from the current credentials.
pub fn start_upload(session: &Session, asset: &NewStudioAsset) -> (r: Step)
    ensures
        session.cookie is None ==> r == (Step::Finished {
            result: Err::<String, UploadError>(UploadError::MissingAuth),
        }),
        session.cookie is Some ==> (r matches Step::Send { request } && wire_request_ok(
            request,
            session.cookie->0@,
            session.token@,
            *asset,
        )),
{
    match session.get_cookie() {
        Err(e) => Step::Finished { result: Err(e) },
        Ok(cookie) => Step::Send { request: build_request(cookie, session.get_token(), asset) },
    }
}

/// Interprets the first attempt's outcome. On the token-invalid signal the
/// replacement token is stored — overwriting the old one for this and every
/// later operation — and the one retry is yielded, rebuilt from the same
/// request value with the new token. Every other outcome finishes at once,
/// leaving the session untouched.
pub fn on_first_response(
    session: &mut Session,
    asset: &NewStudioAsset,
    event: TransportEvent,
) -> (r: Step)
    requires
        old(session).cookie is Some,
    ensures
        final(session).cookie == old(session).cookie,
        classify_model(event) matches Ok(id) ==> (*final(session) == *old(session) && r == (
        Step::Finished { result: Ok::<String, UploadError>(id) })),
        classify_model(event) matches Err(e) ==> match e {
            UploadError::TokenInvalid { new_token } => {
                &&& final(session).token == new_token
                &&& r matches Step::Send { request } && wire_request_ok(
                    request,
                    old(session).cookie->0@,
                    new_token@,
                    *asset,
                )
            },
            _ => *final(session) == *old(session) && r == (Step::Finished {
                result: Err::<String, UploadError>(e),
            }),
        },
{
    match classify_response(event) {
        Ok(id) => Step::Finished { result: Ok(id) },
        Err(UploadError::TokenInvalid { new_token }) => {
            let cookie = session.get_cookie().unwrap();
            session.set_token(new_token.clone());
            Step::Send { request: build_request(cookie, new_token, asset) }
        },
        Err(e) => Step::Finished { result: Err(e) },
    }
}

/// Interprets the second attempt's outcome. It is final whatever it is:
/// even another token-invalid signal is surfaced as an error, and no third
/// attempt exists for it to trigger.
pub fn on_second_response(event: TransportEvent) -> (r: Result<String, UploadError>)
    ensures
        r == classify_model(event),
{
    classify_response(event)
}

/// The whole operation as one function of the starting session, the
/// request value, and the outcome of each attempt the driver would make
/// (`e2` is ignored on the runs that stop after at most one attempt).
///
/// The result triple is: the operation's outcome; the session afterwards;
/// and the anti-forgery header value of each request actually sent, in
/// order — so its length is the number of transport invocations.
pub open spec fn operation_model(
    s0: Session,
    asset: NewStudioAsset,
    e1: TransportEvent,
    e2: TransportEvent,
) -> (Result<String, UploadError>, Session, Seq<Seq<char>>) {
    if s0.cookie is None {
        (Err(UploadError::MissingAuth), s0, Seq::empty())
    } else {
        match classify_model(e1) {
            Ok(id) => (Ok(id), s0, seq![s0.token@]),
            Err(UploadError::TokenInvalid { new_token }) => {
                let s1 = Session { token: new_token, ..s0 };
                (classify_model(e2), s1, seq![s0.token@, new_token@])
            },
            Err(e) => (Err(e), s0, seq![s0.token@]),
        }
    }
}

} // verus!
