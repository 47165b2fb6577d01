//! The upload request value and the enumerated asset category.
//!
//! The binary payload is held as [`bytes::Bytes`]: a cheaply cloneable
//! handle to an immutable chunk of memory. The protocol never inspects the
//! payload — it is sent as-is, with no re-encoding — so the type is declared
//! opaquely and only its `clone` is relied on, which lets the same payload
//! be sent on both attempts of the retry protocol without draining it.

use vstd::prelude::*;
use vstd::string::*;

verus! {

#[verifier::external_type_specification]
#[verifier::external_body]
pub struct ExBytes(bytes::Bytes);

/// Relies on `bytes::Bytes::clone`: a shallow copy, another handle to the
/// very same chunk of memory.
pub assume_specification[ <bytes::Bytes as Clone>::clone ](b: &bytes::Bytes) -> (r: bytes::Bytes)
    ensures
        r == *b,
;

/// The asset categories this endpoint accepts. The stringified name is sent
/// verbatim as the `assetTypeName` query value.
#[derive(Debug, Clone, Copy, PartialEq, Eq, Structural)]
pub enum AssetType {
    Animation,
    Audio,
    Decal,
}

/// The exact text sent on the wire for each category.
pub open spec fn asset_type_name(t: AssetType) -> Seq<char> {
    match t {
        AssetType::Animation => "Animation"@,
        AssetType::Audio => "Audio"@,
        AssetType::Decal => "Decal"@,
    }
}

impl AssetType {
    /// The category's wire name.
    pub fn name(&self) -> (r: String)
        ensures
            r@ == asset_type_name(*self),
    {
        match self {
            AssetType::Animation => String::from_str("Animation"),
            AssetType::Audio => String::from_str("Audio"),
            AssetType::Decal => String::from_str("Decal"),
        }
    }
}

/// Everything the caller supplies for one upload.
///
/// `group_id` and `place_id` are optional: an unset `group_id` is omitted
/// from the wire request entirely, never sent as an empty value.
#[derive(Debug, Clone)]
pub struct NewStudioAsset {
    pub name: String,
    pub description: String,
    pub asset_type: AssetType,
    pub asset_data: bytes::Bytes,
    pub group_id: Option<u64>,
    pub place_id: Option<u64>,
}

} // verus!
