use bytes::Bytes;
use roboat::asset::{AssetType, NewStudioAsset};
use roboat::wire::{build_query, build_request, xcsrf_header_name};

fn asset_with_group(group_id: Option<u64>) -> NewStudioAsset {
    NewStudioAsset {
        name: "roboatTest".to_string(),
        description: "desc".to_string(),
        asset_type: AssetType::Animation,
        asset_data: Bytes::from_static(b"<xml/>"),
        group_id,
        place_id: None,
    }
}

#[test]
fn query_without_group_has_no_group_id_key() {
    let query = build_query(&asset_with_group(None));
    let expected: Vec<(String, String)> = [
        ("assetTypeName", "Animation"),
        ("name", "roboatTest"),
        ("description", "desc"),
        ("AllID", "1"),
        ("ispublic", "False"),
        ("allowComments", "True"),
        ("isGamesAsset", "False"),
    ]
    .iter()
    .map(|(k, v)| (k.to_string(), v.to_string()))
    .collect();
    assert_eq!(query, expected);
    assert!(query.iter().all(|(k, _)| k != "groupId"));
}

#[test]
fn query_with_group_ends_with_group_id() {
    let query = build_query(&asset_with_group(Some(42)));
    assert_eq!(query.len(), 8);
    assert_eq!(query[7], ("groupId".to_string(), "42".to_string()));
}

#[test]
fn group_id_is_written_in_decimal() {
    let query = build_query(&asset_with_group(Some(0)));
    assert_eq!(query[7].1, "0");
    let query = build_query(&asset_with_group(Some(18446744073709551615)));
    assert_eq!(query[7].1, "18446744073709551615");
}

#[test]
fn asset_type_names_are_sent_verbatim() {
    assert_eq!(AssetType::Animation.name(), "Animation");
    assert_eq!(AssetType::Audio.name(), "Audio");
    assert_eq!(AssetType::Decal.name(), "Decal");
    let mut audio = asset_with_group(None);
    audio.asset_type = AssetType::Audio;
    assert_eq!(build_query(&audio)[0].1, "Audio");
}

#[test]
fn request_carries_credentials_and_raw_payload() {
    let asset = asset_with_group(Some(7));
    let request = build_request("cookie-value".to_string(), "token-value".to_string(), &asset);
    assert_eq!(
        request.url,
        "https://www.roblox.com/ide/publish/uploadnewanimation"
    );
    assert_eq!(request.cookie, "cookie-value");
    assert_eq!(request.token, "token-value");
    assert_eq!(request.user_agent, "Roblox/WinInet");
    assert_eq!(request.body, Bytes::from_static(b"<xml/>"));
    assert_eq!(request.query, build_query(&asset));
}

#[test]
fn anti_forgery_header_name() {
    assert_eq!(xcsrf_header_name(), "x-csrf-token");
}
