//! The wire request: the exact query parameters, headers and body of one
//! upload attempt.
//!
//! Both attempts of the retry protocol build their request through
//! [`build_request`], so the whole wire shape is pinned down in one place:
//! the endpoint URL, the category name and caller-supplied texts as query
//! values, the four fixed flags the service mandates, the optional
//! `groupId` (omitted entirely when no owning group is given), the two
//! credentials, the fixed client-identification string, and the payload
//! passed through untouched.

use crate::asset::{asset_type_name, AssetType, NewStudioAsset};
use vstd::prelude::*;
use vstd::string::*;

verus! {

/// The decimal digit `d` as a character.
pub open spec fn digit_char(d: int) -> char
    recommends
        0 <= d <= 9,
{
    if d == 0 {
        '0'
    } else if d == 1 {
        '1'
    } else if d == 2 {
        '2'
    } else if d == 3 {
        '3'
    } else if d == 4 {
        '4'
    } else if d == 5 {
        '5'
    } else if d == 6 {
        '6'
    } else if d == 7 {
        '7'
    } else if d == 8 {
        '8'
    } else {
        '9'
    }
}

/// The decimal digits of `n`, most significant first, with no sign and no
/// leading zero (`0` itself is the single digit `0`).
pub open spec fn dec_str(n: int) -> Seq<char>
    recommends
        n >= 0,
    decreases n,
{
    if n < 10 {
        seq![digit_char(n)]
    } else {
        dec_str(n / 10).push(digit_char(n % 10))
    }
}

/// Relies on `u64`'s `Display` implementation: it writes the value's
/// decimal digits, most significant first, with no sign or padding.
#[verifier::external_body]
fn u64_to_string(n: u64) -> (r: String)
    ensures
        r@ == dec_str(n as int),
{
    n.to_string()
}

/// The endpoint this operation posts to.
pub open spec fn upload_url() -> Seq<char> {
    "https://www.roblox.com/ide/publish/uploadnewanimation"@
}

/// The views of a built query-parameter list, name/value pair by pair.
pub open spec fn pairs_view(q: Seq<(String, String)>) -> Seq<(Seq<char>, Seq<char>)> {
    q.map(|i: int, p: (String, String)| (p.0@, p.1@))
}

/// The exact query-parameter sequence of an upload request: the stringified
/// category, the caller's texts, the four fixed flags, and `groupId` as a
/// final pair only when an owning group is set.
pub open spec fn query_model(asset: NewStudioAsset) -> Seq<(Seq<char>, Seq<char>)> {
    let base = seq![
        ("assetTypeName"@, asset_type_name(asset.asset_type)),
        ("name"@, asset.name@),
        ("description"@, asset.description@),
        ("AllID"@, "1"@),
        ("ispublic"@, "False"@),
        ("allowComments"@, "True"@),
        ("isGamesAsset"@, "False"@),
    ];
    match asset.group_id {
        Some(g) => base.push(("groupId"@, dec_str(g as int))),
        None => base,
    }
}

/// Builds the query-parameter list that [`query_model`] describes.
pub fn build_query(asset: &NewStudioAsset) -> (r: Vec<(String, String)>)
    ensures
        pairs_view(r@) == query_model(*asset),
{
    let mut q: Vec<(String, String)> = Vec::new();
    q.push((String::from_str("assetTypeName"), asset.asset_type.name()));
    q.push((String::from_str("name"), asset.name.clone()));
    q.push((String::from_str("description"), asset.description.clone()));
    q.push((String::from_str("AllID"), String::from_str("1")));
    q.push((String::from_str("ispublic"), String::from_str("False")));
    q.push((String::from_str("allowComments"), String::from_str("True")));
    q.push((String::from_str("isGamesAsset"), String::from_str("False")));
    if let Some(g) = asset.group_id {
        q.push((String::from_str("groupId"), u64_to_string(g)));
    }
    proof {
        assert(pairs_view(q@) =~= query_model(*asset));
    }
    q
}

/// One fully assembled upload attempt, ready for a transport to send as a
/// `POST`: `cookie` goes into the cookie header, `token` into the
/// anti-forgery header, `user_agent` into the client-identification header,
/// and `body` is the raw payload.
pub struct WireRequest {
    pub url: String,
    pub query: Vec<(String, String)>,
    pub cookie: String,
    pub token: String,
    pub user_agent: String,
    pub body: bytes::Bytes,
}

/// What a correctly built attempt looks like, for a given cookie, token and
/// request value.
pub open spec fn wire_request_ok(
    r: WireRequest,
    cookie: Seq<char>,
    token: Seq<char>,
    asset: NewStudioAsset,
) -> bool {
    &&& r.url@ == upload_url()
    &&& pairs_view(r.query@) == query_model(asset)
    &&& r.cookie@ == cookie
    &&& r.token@ == token
    &&& r.user_agent@ == "Roblox/WinInet"@
    &&& r.body == asset.asset_data
}

/// Assembles one attempt. The payload is a cheap clone of the caller's
/// bytes, so a second attempt can be built from the same request value.
pub fn build_request(cookie: String, token: String, asset: &NewStudioAsset) -> (r: WireRequest)
    ensures
        wire_request_ok(r, cookie@, token@, *asset),
{
    WireRequest {
        url: String::from_str("https://www.roblox.com/ide/publish/uploadnewanimation"),
        query: build_query(asset),
        cookie,
        token,
        user_agent: String::from_str("Roblox/WinInet"),
        body: asset.asset_data.clone(),
    }
}

/// The request and response header that carries the anti-forgery token.
pub fn xcsrf_header_name() -> (r: &'static str)
    ensures
        r@ == "x-csrf-token"@,
{
    "x-csrf-token"
}

} // verus!
