//! Percent-encoding of URL query components (through the `percent-encoding`
//! crate) and the request URLs built with it.
use vstd::prelude::*;
use vstd::string::StringSliceAdditionalSpecFns;
use crate::text::{push_str_chars};

verus! {

/// Whether a byte is an ASCII letter or digit.
pub open spec fn is_alnum_byte(b: u8) -> bool {
    (48 <= b <= 57) || (65 <= b <= 90) || (97 <= b <= 122)
}

/// The uppercase hexadecimal digit for a value below 16.
pub open spec fn hex_upper(d: nat) -> char {
    if d < 10 {
        ((d + 48) as u32) as char
    } else {
        ((d + 55) as u32) as char
    }
}

/// Each byte that is an ASCII letter or digit stays as that character; every
/// other byte becomes `%` and two uppercase hex digits.
pub open spec fn pct_encode(b: Seq<u8>) -> Seq<char>
    decreases b.len(),
{
    if b.len() == 0 {
        seq![]
    } else {
        pct_encode(b.drop_last()) + (if is_alnum_byte(b.last()) {
            seq![(b.last() as u32) as char]
        } else {
            seq!['%', hex_upper((b.last() / 16) as nat), hex_upper((b.last() % 16) as nat)]
        })
    }
}

/// `percent_encoding::utf8_percent_encode(s, NON_ALPHANUMERIC)`: the UTF-8 bytes
/// of `s`, with every byte other than an ASCII letter or digit written as `%XX`
/// (uppercase hex).
#[verifier::external_body]
pub(crate) fn percent_encode_component(s: &str) -> (r: String)
    ensures
        r@ == pct_encode(s.spec_bytes()),
{
    percent_encoding::utf8_percent_encode(s, percent_encoding::NON_ALPHANUMERIC).to_string()
}

/// The MusicBrainz search query for a recording by an artist.
pub open spec fn musicbrainz_query(artist: Seq<char>, title: Seq<char>) -> Seq<char> {
    "artist:\""@ + artist + "\" AND recording:\""@ + title + "\""@
}

/// The MusicBrainz recording search URL for an artist and title (first match,
/// as JSON).
pub fn musicbrainz_search_url(artist: &str, title: &str) -> (r: String)
    ensures
        r@ == "https://musicbrainz.org/ws/2/recording/?query="@ + pct_encode(
            encode_utf8_of(musicbrainz_query(artist@, title@)),
        ) + "&fmt=json&limit=1"@,
{
    let mut q = String::new();
    push_str_chars(&mut q, "artist:\"");
    push_str_chars(&mut q, artist);
    push_str_chars(&mut q, "\" AND recording:\"");
    push_str_chars(&mut q, title);
    push_str_chars(&mut q, "\"");
    let enc = percent_encode_component(q.as_str());
    let mut url = String::new();
    push_str_chars(&mut url, "https://musicbrainz.org/ws/2/recording/?query=");
    push_str_chars(&mut url, enc.as_str());
    push_str_chars(&mut url, "&fmt=json&limit=1");
    url
}

/// The UTF-8 encoding of a character sequence.
pub open spec fn encode_utf8_of(s: Seq<char>) -> Seq<u8> {
    vstd::utf8::encode_utf8(s)
}

/// The Cover Art Archive URL of a release's 250-pixel front cover.
pub fn cover_art_url(release_id: &str) -> (r: String)
    ensures
        r@ == "https://coverartarchive.org/release/"@ + release_id@ + "/front-250"@,
{
    let mut url = String::new();
    push_str_chars(&mut url, "https://coverartarchive.org/release/");
    push_str_chars(&mut url, release_id);
    push_str_chars(&mut url, "/front-250");
    url
}

} // verus!
