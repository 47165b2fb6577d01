//! The guarantees of the retry protocol, each proved once and for all over
//! [`operation_model`] and the wire model — not merely checked on sample
//! values.

use crate::asset::NewStudioAsset;
use crate::error::UploadError;
use crate::protocol::{classify_model, operation_model, TransportEvent};
use crate::session::Session;
use crate::wire::{dec_str, query_model};
use vstd::prelude::*;

verus! {

/// With a cookie present and a token the service accepts — that is, a
/// `2xx` first answer — the operation succeeds after a single transport
/// invocation, returns exactly the response body text as the identifier,
/// unmodified, and leaves the session as it was.
pub proof fn lemma_success_first_attempt(
    s0: Session,
    asset: NewStudioAsset,
    status: u16,
    token_header: Option<String>,
    body: String,
    e2: TransportEvent,
)
    requires
        s0.cookie is Some,
        200 <= status < 300,
    ensures
        ({
            let e1 = TransportEvent::Response { status, token_header, body };
            let (res, s_after, sent) = operation_model(s0, asset, e1, e2);
            &&& res == Ok::<String, UploadError>(body)
            &&& s_after == s0
            &&& sent.len() == 1
        }),
{
}

/// With the cookie missing, the operation fails with `MissingAuth` and no
/// transport invocation happens at all, whatever the transport would have
/// answered.
pub proof fn lemma_missing_auth(
    s0: Session,
    asset: NewStudioAsset,
    e1: TransportEvent,
    e2: TransportEvent,
)
    requires
        s0.cookie is None,
    ensures
        ({
            let (res, s_after, sent) = operation_model(s0, asset, e1, e2);
            &&& res == Err::<String, UploadError>(UploadError::MissingAuth)
            &&& s_after == s0
            &&& sent.len() == 0
        }),
{
}

/// When the first attempt draws the token-invalid signal carrying
/// replacement token `new_token`, the session holds `new_token` once the
/// operation completes — whether the second attempt succeeds or fails —
/// the cookie is untouched, exactly two transport invocations happen, the
/// second one carries `new_token` in its anti-forgery header, and the
/// operation's outcome is the second answer's classification.
pub proof fn lemma_token_refresh(
    s0: Session,
    asset: NewStudioAsset,
    new_token: String,
    body: String,
    e2: TransportEvent,
)
    requires
        s0.cookie is Some,
        new_token@.len() > 0,
    ensures
        ({
            let e1 = TransportEvent::Response {
                status: 403,
                token_header: Some(new_token),
                body,
            };
            let (res, s_after, sent) = operation_model(s0, asset, e1, e2);
            &&& s_after.token == new_token
            &&& s_after.cookie == s0.cookie
            &&& sent.len() == 2
            &&& sent[1] == new_token@
            &&& res == classify_model(e2)
        }),
{
}

/// When the first and the second attempt both draw a token-invalid signal,
/// the operation stops after exactly two transport invocations — the
/// second signal triggers no third attempt — and surfaces the second
/// failure as its outcome; only the first replacement token is consumed.
pub proof fn lemma_no_third_attempt(
    s0: Session,
    asset: NewStudioAsset,
    t1: String,
    b1: String,
    t2: String,
    b2: String,
)
    requires
        s0.cookie is Some,
        t1@.len() > 0,
        t2@.len() > 0,
    ensures
        ({
            let e1 = TransportEvent::Response { status: 403, token_header: Some(t1), body: b1 };
            let e2 = TransportEvent::Response { status: 403, token_header: Some(t2), body: b2 };
            let (res, s_after, sent) = operation_model(s0, asset, e1, e2);
            &&& sent.len() == 2
            &&& res == Err::<String, UploadError>(UploadError::TokenInvalid { new_token: t2 })
            &&& s_after.token == t1
        }),
{
}

/// When the first attempt draws a rejection that claims the token was
/// invalid but carries no usable replacement — the header absent or empty —
/// the operation fails with `MalformedRefreshSignal` after a single
/// transport invocation: no retry with an empty token, and the stored
/// token is untouched.
pub proof fn lemma_malformed_refresh(
    s0: Session,
    asset: NewStudioAsset,
    token_header: Option<String>,
    body: String,
    e2: TransportEvent,
)
    requires
        s0.cookie is Some,
        token_header is None || token_header->0@.len() == 0,
    ensures
        ({
            let e1 = TransportEvent::Response { status: 403, token_header, body };
            let (res, s_after, sent) = operation_model(s0, asset, e1, e2);
            &&& res == Err::<String, UploadError>(UploadError::MalformedRefreshSignal)
            &&& s_after == s0
            &&& sent.len() == 1
        }),
{
}

/// When no owning group is set, the query-parameter sequence contains no
/// pair named `groupId` at all — not an empty value. When one is set, the
/// single `groupId` pair stands last, valued with the group's decimal
/// digits.
pub proof fn lemma_group_id_param(asset: NewStudioAsset)
    ensures
        asset.group_id is None ==> forall|i: int|
            0 <= i < query_model(asset).len() ==> (#[trigger] query_model(asset)[i]).0
                != "groupId"@,
        asset.group_id matches Some(g) ==> {
            let q = query_model(asset);
            &&& q[q.len() - 1] == (("groupId"@, dec_str(g as int)))
            &&& forall|i: int| 0 <= i < q.len() - 1 ==> (#[trigger] q[i]).0 != "groupId"@
        },
{
    let q = query_model(asset);
    assert forall|i: int| 0 <= i < 7 implies (#[trigger] q[i]).0 != "groupId"@ by {
        reveal_strlit("assetTypeName");
        reveal_strlit("name");
        reveal_strlit("description");
        reveal_strlit("AllID");
        reveal_strlit("ispublic");
        reveal_strlit("allowComments");
        reveal_strlit("isGamesAsset");
        reveal_strlit("groupId");
        assert("assetTypeName"@.len() == 13);
        assert("name"@.len() == 4);
        assert("description"@.len() == 11);
        assert("AllID"@.len() == 5);
        assert("ispublic"@.len() == 8);
        assert("allowComments"@.len() == 13);
        assert("isGamesAsset"@.len() == 12);
        assert("groupId"@.len() == 7);
        if i == 0 {
            assert(q[i].0 == "assetTypeName"@);
        } else if i == 1 {
            assert(q[i].0 == "name"@);
        } else if i == 2 {
            assert(q[i].0 == "description"@);
        } else if i == 3 {
            assert(q[i].0 == "AllID"@);
        } else if i == 4 {
            assert(q[i].0 == "ispublic"@);
        } else if i == 5 {
            assert(q[i].0 == "allowComments"@);
        } else {
            assert(q[i].0 == "isGamesAsset"@);
        }
    }
}

} // verus!
