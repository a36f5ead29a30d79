use terminal_dj::json::Json;
use terminal_dj::lastfm::{hex_string, md5_hex, FormParams, LastfmClient};

fn names(p: &FormParams) -> Vec<String> {
    p.pairs().iter().map(|(k, _)| k.clone()).collect()
}

fn value(p: &FormParams, name: &str) -> String {
    p.pairs().iter().find(|(k, _)| k == name).map(|(_, v)| v.clone()).expect("parameter")
}

fn signed_in() -> LastfmClient {
    let mut c = LastfmClient::new("KEY".to_string(), "SECRET".to_string());
    let resp = Json::Object(vec![(
        "session".to_string(),
        Json::Object(vec![("key".to_string(), Json::Str("SK".to_string()))]),
    )]);
    assert!(c.accept_session(&resp));
    c
}

#[test]
fn md5_hex_matches_known_digests() {
    assert_eq!(md5_hex(""), "d41d8cd98f00b204e9800998ecf8427e");
    assert_eq!(md5_hex("abc"), "900150983cd24fb0d6963f7d28e17f72");
    assert_eq!(md5_hex("abc"), format!("{:x}", md5::compute("abc")));
}

#[test]
fn hex_string_writes_two_lowercase_digits_per_byte() {
    assert_eq!(hex_string(&[0x00, 0xab, 0x0f, 0xff]), "00ab0fff");
    assert_eq!(hex_string(&[]), "");
}

#[test]
fn form_params_stay_in_name_order() {
    let mut p = FormParams::new();
    p.insert("method", "m".to_string());
    p.insert("api_key", "k".to_string());
    p.insert("username", "u".to_string());
    p.insert("authToken", "t".to_string());
    assert_eq!(names(&p), vec!["api_key", "authToken", "method", "username"]);
    p.insert("method", "m2".to_string());
    assert_eq!(names(&p), vec!["api_key", "authToken", "method", "username"]);
    assert_eq!(value(&p, "method"), "m2");
}

#[test]
fn signature_skips_format_and_appends_the_secret() {
    let c = LastfmClient::new("KEY".to_string(), "SECRET".to_string());
    let mut p = FormParams::new();
    p.insert("method", "M".to_string());
    p.insert("format", "json".to_string());
    p.insert("api_key", "KEY".to_string());
    assert_eq!(c.sign(&p), md5_hex("api_keyKEYmethodMSECRET"));
}

#[test]
fn auth_form_is_signed_and_ordered() {
    let c = LastfmClient::new("KEY".to_string(), "SECRET".to_string());
    let f = c.auth_form("alice", "pw");
    assert_eq!(names(&f), vec!["api_key", "api_sig", "authToken", "format", "method", "username"]);
    let token = md5_hex(&format!("alice{}", md5_hex("pw")));
    assert_eq!(value(&f, "authToken"), token);
    assert_eq!(value(&f, "format"), "json");
    assert_eq!(value(&f, "method"), "auth.getMobileSession");
    let base = format!("api_keyKEYauthToken{}methodauth.getMobileSessionusernamealiceSECRET", token);
    assert_eq!(value(&f, "api_sig"), md5_hex(&base));
}

#[test]
fn now_playing_needs_a_session() {
    let c = LastfmClient::new("KEY".to_string(), "SECRET".to_string());
    assert!(c.now_playing_form("A", "T").is_none());
    assert!(c.scrobble_form("A", "T", 1).is_none());
}

#[test]
fn now_playing_form_is_signed_and_ordered() {
    let c = signed_in();
    let f = c.now_playing_form("Artist", "Title").expect("form");
    assert_eq!(names(&f), vec!["api_key", "api_sig", "artist", "format", "method", "sk", "track"]);
    let base = "api_keyKEYartistArtistmethodtrack.updateNowPlayingskSKtrackTitleSECRET";
    assert_eq!(value(&f, "api_sig"), md5_hex(base));
}

#[test]
fn scrobble_form_carries_the_timestamp() {
    let c = signed_in();
    let f = c.scrobble_form("Artist", "Title", 1700000000).expect("form");
    assert_eq!(
        names(&f),
        vec!["api_key", "api_sig", "artist[0]", "format", "method", "sk", "timestamp[0]", "track[0]"]
    );
    assert_eq!(value(&f, "timestamp[0]"), "1700000000");
    let base = "api_keyKEYartist[0]Artistmethodtrack.scrobbleskSKtimestamp[0]1700000000track[0]TitleSECRET";
    assert_eq!(value(&f, "api_sig"), md5_hex(base));
}

#[test]
fn failed_sign_in_leaves_no_session() {
    let mut c = LastfmClient::new("KEY".to_string(), "SECRET".to_string());
    let resp = Json::Object(vec![("error".to_string(), Json::Number(Some(4)))]);
    assert!(!c.accept_session(&resp));
    assert_eq!(c.session_key, None);
}
