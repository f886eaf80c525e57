//! The calls into other crates, and into the parts of the standard library that carry no
//! specification. Each contract here is believed, not proved.

use vstd::prelude::*;

use crate::text;

verus! {

/// What `diacritics::remove_diacritics` makes of a text.
pub uninterp spec fn without_diacritics(s: Seq<char>) -> Seq<char>;

/// `diacritics::remove_diacritics`, which replaces each letter with a diacritic by the plain
/// letters that its table lists for it, drops combining marks, and copies every other character.
/// The contract names the result and claims that ASCII text comes back as it went in: the table
/// maps each ASCII letter to itself and holds no other ASCII character.
#[verifier::external_body]
pub(crate) fn remove_diacritics(s: &str) -> (r: String)
    ensures
        r@ == without_diacritics(s@),
        vstd::utf8::is_ascii_chars(s@) ==> r@ == s@,
{
    diacritics::remove_diacritics(s)
}

/// The MD5 digest of some bytes, as `md5::compute` gives it.
pub uninterp spec fn md5_digest(data: Seq<u8>) -> [u8; 16];

/// `md5::compute`, with the digest taken out of its newtype. The contract names the result.
#[verifier::external_body]
pub(crate) fn md5_compute(data: &[u8]) -> (r: [u8; 16])
    ensures
        r == md5_digest(data@),
{
    md5::compute(data).0
}

/// The ASCII letters and digits.
pub open spec fn alphanumeric(c: char) -> bool {
    'A' <= c <= 'Z' || 'a' <= c <= 'z' || '0' <= c <= '9'
}

/// One sample that `rand::rng()` draws from `rand::distr::Alphanumeric`, as a text of one
/// character. The contract claims what holds of every draw: the character is an ASCII letter or
/// digit. Nothing is said of how likely each is.
#[verifier::external_body]
pub(crate) fn random_alphanumeric() -> (r: String)
    ensures
        r@.len() == 1,
        alphanumeric(r@[0]),
{
    char::from(rand::RngExt::sample(&mut rand::rng(), rand::distr::Alphanumeric)).to_string()
}

/// A lower-case hexadecimal digit.
pub open spec fn lower_hex_digit(c: char) -> bool {
    '0' <= c <= '9' || 'a' <= c <= 'f'
}

/// The hyphenated lower-case form of a random (version 4) UUID.
pub open spec fn is_uuid_v4(s: Seq<char>) -> bool {
    &&& s.len() == 36
    &&& forall|i: int|
        0 <= i < 36 ==> if i == 8 || i == 13 || i == 18 || i == 23 {
            #[trigger] s[i] == '-'
        } else {
            lower_hex_digit(s[i])
        }
    &&& s[14] == '4'
    &&& s[19] == '8' || s[19] == '9' || s[19] == 'a' || s[19] == 'b'
}

/// `uuid::Uuid::new_v4`, as text. The contract claims what holds of every UUID of that version:
/// the hyphenated form, with the version and the variant in their places.
#[verifier::external_body]
pub(crate) fn new_uuid() -> (r: String)
    ensures
        is_uuid_v4(r@),
{
    uuid::Uuid::new_v4().to_string()
}

/// The serialization of the URL that `reqwest::Url::parse` reads from a text, or `None` where it
/// finds no absolute URL there.
pub uninterp spec fn parsed_url(s: Seq<char>) -> Option<Seq<char>>;

/// `reqwest::Url::parse`, with the URL serialized. The contract names the result.
#[verifier::external_body]
pub(crate) fn parse_url(s: &str) -> (r: Option<String>)
    ensures
        r.deep_view() == parsed_url(s@),
{
    reqwest::Url::parse(s).ok().map(|url| url.to_string())
}

/// Where a byte first stands among some bytes, or how many there are where it is not there.
pub open spec fn first_index(bytes: Seq<u8>, byte: u8) -> int
    decreases bytes.len(),
{
    if bytes.len() == 0 || bytes[0] == byte {
        0
    } else {
        1 + first_index(bytes.skip(1), byte)
    }
}

/// The bytes that a query holds as one byte: letters, digits, a few marks, and the space, for which
/// a plus sign stands. Any other byte takes a percent sign and two digits.
pub open spec fn plain_in_query(byte: u8) -> bool {
    ||| 0x30 <= byte <= 0x39
    ||| 0x41 <= byte <= 0x5a
    ||| 0x61 <= byte <= 0x7a
    ||| byte == 0x20 || byte == 0x2a || byte == 0x2d || byte == 0x2e || byte == 0x5f
}

/// How many bytes some bytes take in a query.
pub open spec fn encoded_len(bytes: Seq<u8>) -> nat
    decreases bytes.len(),
{
    if bytes.len() == 0 {
        0
    } else {
        encoded_len(bytes.drop_last()) + if plain_in_query(bytes.last()) {
            1nat
        } else {
            3nat
        }
    }
}

/// How many bytes some pairs take in a query, each with an equals sign and a separator.
pub open spec fn query_len(pairs: Seq<(Seq<char>, Seq<char>)>) -> nat
    decreases pairs.len(),
{
    if pairs.len() == 0 {
        0
    } else {
        query_len(pairs.drop_last()) + encoded_len(vstd::utf8::encode_utf8(pairs.last().0))
            + encoded_len(vstd::utf8::encode_utf8(pairs.last().1)) + 2
    }
}

/// Where the query of a serialized URL ends, in bytes, once some pairs are appended
/// to it. A query that is not there yet starts with a question mark, and the first pair of a query
/// has no separator before it.
pub open spec fn query_end(url: Seq<u8>, pairs: Seq<(Seq<char>, Seq<char>)>) -> int {
    let end = first_index(url, 0x23);
    let start = first_index(url, 0x3f);
    let bare = if start < end {
        end
    } else {
        end + 1
    };
    if pairs.len() > 0 && (start >= end || start + 1 == end) {
        bare + query_len(pairs) - 1
    } else {
        bare + query_len(pairs)
    }
}

/// Whether pairs can be appended to the query of a serialized URL. A URL knows where its query and
/// its fragment start as 32-bit numbers: where there is a fragment, the query must end within them,
/// and where there is neither, the query must start within them.
pub open spec fn has_room(url: Seq<u8>, pairs: Seq<(Seq<char>, Seq<char>)>) -> bool {
    let end = first_index(url, 0x23);
    if end < url.len() {
        query_end(url, pairs) <= u32::MAX
    } else {
        first_index(url, 0x3f) < end || end <= u32::MAX
    }
}

/// The serialization of the URL that `reqwest::Url::parse_with_params` makes of a text and pairs,
/// or `None` where the text holds no absolute URL.
pub uninterp spec fn url_with_query(s: Seq<char>, pairs: Seq<(Seq<char>, Seq<char>)>) -> Option<
    Seq<char>,
>;

/// `reqwest::Url::parse_with_params`, with the URL serialized: the URL of the text with each pair
/// appended to its query. The contract names the result and claims that there is one exactly where
/// `Url::parse` finds a URL in the text. The call panics where the query or the fragment of the URL
/// starts beyond the 32-bit numbers, so that is left out; a text without a URL never panics.
#[verifier::external_body]
pub(crate) fn parse_url_with_params(s: &str, pairs: &Vec<(String, String)>) -> (r: Option<String>)
    requires
        parsed_url(s@) matches Some(url) ==> has_room(
            vstd::utf8::encode_utf8(url),
            pairs.deep_view(),
        ),
    ensures
        r.deep_view() == url_with_query(s@, pairs.deep_view()),
        r is Some <==> parsed_url(s@) is Some,
{
    reqwest::Url::parse_with_params(s, pairs).ok().map(|url| url.to_string())
}

/// The JSON object whose members are the given names with the given strings.
pub uninterp spec fn json_object(members: Seq<(Seq<char>, Seq<char>)>) -> Seq<char>;

/// The text of a `serde_json::Value::Object` made of string members. The contract names the
/// result.
#[verifier::external_body]
pub(crate) fn json_object_text(members: &Vec<(String, String)>) -> (r: String)
    ensures
        r@ == json_object(members.deep_view()),
{
    serde_json::Value::Object(
        members.iter().map(|m| (m.0.clone(), serde_json::Value::String(m.1.clone()))).collect(),
    ).to_string()
}

/// What `str::to_lowercase` makes of a text.
pub uninterp spec fn lowercase(s: Seq<char>) -> Seq<char>;

/// `str::to_lowercase`. The contract names the result and claims what becomes of ASCII text: its
/// capital letters become the small ones, and every other character stays.
#[verifier::external_body]
pub(crate) fn to_lowercase(s: &str) -> (r: String)
    ensures
        r@ == lowercase(s@),
        vstd::utf8::is_ascii_chars(s@) ==> r@ == text::ascii_lowercase(s@),
{
    s.to_lowercase()
}

/// What `String::from_utf8_lossy` makes of some bytes.
pub uninterp spec fn utf8_lossy(bytes: Seq<u8>) -> Seq<char>;

/// `String::from_utf8_lossy`. The contract names the result and claims that valid UTF-8 is
/// decoded; what stands for invalid bytes is left to the name.
#[verifier::external_body]
pub(crate) fn from_utf8_lossy(bytes: &[u8]) -> (r: String)
    ensures
        r@ == utf8_lossy(bytes@),
        vstd::utf8::valid_utf8(bytes@) ==> r@ == vstd::utf8::decode_utf8(bytes@),
{
    String::from_utf8_lossy(bytes).into_owned()
}

} // verus!
