//! The failure taxonomy of the authenticated upload protocol.

use vstd::prelude::*;

verus! {

/// Every way an authenticated operation can fail.
///
/// - `MissingAuth`: the session cookie was never supplied; no request is sent.
/// - `TokenInvalid`: the service rejected the anti-forgery token and issued a
///   replacement; recoverable by exactly one retry.
/// - `MalformedRefreshSignal`: the service rejected the token but supplied no
///   usable replacement; terminal.
/// - `RemoteRejected`: any other non-success response, with status and body
///   kept for diagnostics; terminal.
/// - `TransportFailure`: the exchange itself failed (connection, timeout,
///   TLS); terminal, with the underlying cause as text.
#[derive(Debug, Clone, PartialEq, Eq)]
pub enum UploadError {
    MissingAuth,
    TokenInvalid { new_token: String },
    MalformedRefreshSignal,
    RemoteRejected { status: u16, body: String },
    TransportFailure { message: String },
}

} // verus!
