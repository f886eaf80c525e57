//! The URLs of a Subsonic server, and the requests that are sent to them.

use vstd::prelude::*;

use crate::backend::pair;
use crate::config::{get_max_bitrate, get_transcoding_profile, Settings};
use crate::foreign::{
    alphanumeric, encoded_len, first_index, has_room, md5_digest, parse_url, parse_url_with_params,
    parsed_url, plain_in_query, query_len, url_with_query,
};
use crate::jellyfin::api::ImageType;
use crate::subsonic::{
    auth_params, bytes_params, has_stream_settings, image_params, is_salt, no_format, proof_params,
    rest_url_text, stream_bitrate, stream_format, stream_params, without_format, Call, Params,
    Subsonic, SubsonicAuthMode, SubsonicRequest, SubsonicView,
    SUBSONIC_API_VERSION, SUBSONIC_CLIENT_NAME,
};
use crate::text;

verus! {

broadcast use vstd::string::group_string_axioms;

/// A request for bytes carries the parameters of a request for JSON, but for the format.
pub proof fn law_bytes_params(user: SubsonicView, salt: Seq<char>)
    ensures
        bytes_params(user, salt) == seq![
            ("u"@, user.username),
            ("v"@, SUBSONIC_API_VERSION@),
            ("c"@, SUBSONIC_CLIENT_NAME@),
        ] + proof_params(user, salt),
{
    let u = ("u"@, user.username);
    let v = ("v"@, SUBSONIC_API_VERSION@);
    let c = ("c"@, SUBSONIC_CLIENT_NAME@);
    let f = ("f"@, "json"@);
    let p = proof_params(user, salt);
    reveal_strlit("u");
    reveal_strlit("v");
    reveal_strlit("c");
    reveal_strlit("f");
    reveal_strlit("t");
    reveal_strlit("s");
    reveal_strlit("p");
    assert("u"@[0] != "f"@[0] && "v"@[0] != "f"@[0] && "c"@[0] != "f"@[0] && "t"@[0] != "f"@[0]
        && "s"@[0] != "f"@[0] && "p"@[0] != "f"@[0]);
    let keep = no_format();
    reveal(Seq::filter);
    let all = seq![u, v, c, f];
    assert(all.drop_last() =~= seq![u, v, c]);
    assert(seq![u, v, c].drop_last() =~= seq![u, v]);
    assert(seq![u, v].drop_last() =~= seq![u]);
    assert(seq![u].drop_last() =~= seq![]);
    assert(seq![u].filter(keep) =~= seq![u]);
    assert(seq![u, v].filter(keep) =~= seq![u, v]);
    assert(seq![u, v, c].filter(keep) =~= seq![u, v, c]);
    assert(all.filter(keep) =~= seq![u, v, c]);
    assert(seq![p[0]].drop_last() =~= seq![]);
    assert(seq![p[0]].filter(keep) =~= seq![p[0]]);
    if p.len() == 2 {
        assert(p.drop_last() =~= seq![p[0]]);
        assert(p.filter(keep) =~= p);
    } else {
        assert(p =~= seq![p[0]]);
    }
    Seq::filter_distributes_over_add(all, p, keep);
}

/// Hexadecimal takes two digits for each byte.
pub proof fn lemma_lower_hex_len(bytes: Seq<u8>)
    ensures
        text::lower_hex(bytes).len() == 2 * bytes.len(),
    decreases bytes.len(),
{
    if bytes.len() > 0 {
        lemma_lower_hex_len(bytes.drop_last());
    }
}

/// A salt to measure URLs with.
pub open spec fn sample_salt() -> Seq<char> {
    "AAAAAAAAAAAAAAAA"@
}

proof fn lemma_sample_salt()
    ensures
        is_salt(sample_salt()),
{
    reveal_strlit("AAAAAAAAAAAAAAAA");
    assert("AAAAAAAAAAAAAAAA"@.len() == 16);
}

/// Whether a stream has a URL: one can be made of the host, and it has room for the parameters.
pub open spec fn has_stream_uri(
    user: SubsonicView,
    item_id: Seq<char>,
    settings: Settings,
    salt: Seq<char>,
) -> bool {
    match parsed_url(rest_url_text(user.host, "stream"@)) {
        Some(url) => has_room(
            vstd::utf8::encode_utf8(url),
            stream_params(user, item_id, settings, salt),
        ),
        None => false,
    }
}

/// One more pair makes a query longer by the pair.
proof fn lemma_query_len_push(pairs: Seq<(Seq<char>, Seq<char>)>, p: (Seq<char>, Seq<char>))
    ensures
        query_len(pairs.push(p)) == query_len(pairs) + encoded_len(vstd::utf8::encode_utf8(p.0))
            + encoded_len(vstd::utf8::encode_utf8(p.1)) + 2,
{
    assert(pairs.push(p).drop_last() =~= pairs);
}

/// Bytes that a query holds as one byte each take as many bytes as they are.
proof fn lemma_plain_len(bytes: Seq<u8>)
    requires
        forall|i: int| 0 <= i < bytes.len() ==> plain_in_query(#[trigger] bytes[i]),
    ensures
        encoded_len(bytes) == bytes.len(),
    decreases bytes.len(),
{
    if bytes.len() > 0 {
        lemma_plain_len(bytes.drop_last());
    }
}

/// ASCII letters and digits take one byte each in a query.
proof fn lemma_alphanumeric_len(s: Seq<char>)
    requires
        forall|i: int| 0 <= i < s.len() ==> alphanumeric(#[trigger] s[i]),
    ensures
        encoded_len(vstd::utf8::encode_utf8(s)) == s.len(),
{
    let bytes = vstd::utf8::encode_utf8(s);
    assert(vstd::utf8::is_ascii_chars(s));
    vstd::utf8::is_ascii_chars_encode_utf8(s);
    assert forall|i: int| 0 <= i < bytes.len() implies plain_in_query(#[trigger] bytes[i]) by {
        assert(alphanumeric(s[i]));
        assert(s[i] as u8 == bytes[i]);
    }
    lemma_plain_len(bytes);
}

/// Hexadecimal is made of ASCII letters and digits.
proof fn lemma_lower_hex_alphanumeric(bytes: Seq<u8>)
    ensures
        forall|i: int|
            0 <= i < text::lower_hex(bytes).len() ==> alphanumeric(
                #[trigger] text::lower_hex(bytes)[i],
            ),
    decreases bytes.len(),
{
    if bytes.len() > 0 {
        let front = text::lower_hex(bytes.drop_last());
        lemma_lower_hex_alphanumeric(bytes.drop_last());
        assert forall|d: int| 0 <= d < 16 implies alphanumeric(#[trigger] text::digit(d)) by {
            reveal_strlit("0123456789abcdef");
        }
        assert forall|i: int| 0 <= i < text::lower_hex(bytes).len() implies alphanumeric(
            #[trigger] text::lower_hex(bytes)[i],
        ) by {
            if i < front.len() {
                assert(text::lower_hex(bytes)[i] == front[i]);
            } else if i == front.len() {
                assert(text::lower_hex(bytes)[i] == text::digit(bytes.last() as int / 16));
            } else {
                assert(text::lower_hex(bytes)[i] == text::digit(bytes.last() as int % 16));
            }
        }
    }
}

/// The parameters of a request for bytes take as much room with one salt as with any other.
proof fn lemma_bytes_params_len(user: SubsonicView, salt: Seq<char>, other: Seq<char>)
    requires
        user.auth_mode == SubsonicAuthMode::Token ==> is_salt(salt) && is_salt(other),
    ensures
        query_len(bytes_params(user, salt)) == query_len(bytes_params(user, other)),
        bytes_params(user, salt).len() == bytes_params(user, other).len(),
{
    law_bytes_params(user, salt);
    law_bytes_params(user, other);
    if user.auth_mode == SubsonicAuthMode::Token {
        let front = seq![
            ("u"@, user.username),
            ("v"@, SUBSONIC_API_VERSION@),
            ("c"@, SUBSONIC_CLIENT_NAME@),
        ];
        let p = proof_params(user, salt);
        let q = proof_params(user, other);
        let digest = md5_digest(vstd::utf8::encode_utf8(user.password + salt))@;
        let other_digest = md5_digest(vstd::utf8::encode_utf8(user.password + other))@;
        lemma_lower_hex_len(digest);
        lemma_lower_hex_len(other_digest);
        lemma_lower_hex_alphanumeric(digest);
        lemma_lower_hex_alphanumeric(other_digest);
        lemma_alphanumeric_len(text::lower_hex(digest));
        lemma_alphanumeric_len(text::lower_hex(other_digest));
        lemma_alphanumeric_len(salt);
        lemma_alphanumeric_len(other);
        assert(front + p =~= front.push(p[0]).push(p[1]));
        assert(front + q =~= front.push(q[0]).push(q[1]));
        lemma_query_len_push(front, p[0]);
        lemma_query_len_push(front.push(p[0]), p[1]);
        lemma_query_len_push(front, q[0]);
        lemma_query_len_push(front.push(q[0]), q[1]);
    } else {
        assert(proof_params(user, salt) =~= proof_params(user, other));
    }
}

/// Whether a stream has a URL does not depend on the salt.
pub proof fn law_salt_takes_no_room(
    user: SubsonicView,
    item_id: Seq<char>,
    settings: Settings,
    salt: Seq<char>,
    other: Seq<char>,
)
    requires
        user.auth_mode == SubsonicAuthMode::Token ==> is_salt(salt) && is_salt(other),
    ensures
        has_stream_uri(user, item_id, settings, salt) == has_stream_uri(
            user,
            item_id,
            settings,
            other,
        ),
{
    lemma_bytes_params_len(user, salt, other);
    let id = ("id"@, item_id);
    let rate = ("maxBitRate"@, text::decimal_int(stream_bitrate(settings) as int));
    let format = ("format"@, stream_format(settings));
    let a = bytes_params(user, salt);
    let b = bytes_params(user, other);
    lemma_query_len_push(a, id);
    lemma_query_len_push(a.push(id), rate);
    lemma_query_len_push(a.push(id).push(rate), format);
    lemma_query_len_push(b, id);
    lemma_query_len_push(b.push(id), rate);
    lemma_query_len_push(b.push(id).push(rate), format);
}

/// A text takes at least a byte and at most three for each of its own in a query.
pub proof fn law_encoding_takes_up_to_three_bytes(bytes: Seq<u8>)
    ensures
        bytes.len() <= encoded_len(bytes) <= 3 * bytes.len(),
    decreases bytes.len(),
{
    if bytes.len() > 0 {
        law_encoding_takes_up_to_three_bytes(bytes.drop_last());
    }
}

/// A URL that fits into 32-bit numbers with its parameters has room for them, and one without a
/// fragment that fits itself has room for any.
pub proof fn law_short_url_has_room(url: Seq<u8>, pairs: Seq<(Seq<char>, Seq<char>)>)
    ensures
        url.len() + 1 + query_len(pairs) <= u32::MAX ==> has_room(url, pairs),
        url.len() <= u32::MAX && !url.contains(0x23) ==> has_room(url, pairs),
{
    lemma_first_index(url, 0x23);
    lemma_first_index(url, 0x3f);
}

/// A byte stands first where it stands, or nowhere.
proof fn lemma_first_index(bytes: Seq<u8>, byte: u8)
    ensures
        0 <= first_index(bytes, byte) <= bytes.len(),
        first_index(bytes, byte) < bytes.len() ==> bytes.contains(byte),
    decreases bytes.len(),
{
    if bytes.len() > 0 && bytes[0] != byte {
        lemma_first_index(bytes.skip(1), byte);
        if bytes.skip(1).contains(byte) {
            let i = choose|i: int| 0 <= i < bytes.skip(1).len() && bytes.skip(1)[i] == byte;
            assert(bytes[i + 1] == byte);
        }
    }
}

/// Where a byte first stands among some bytes, or how many there are where it is not there.
fn find_byte(bytes: &[u8], byte: u8) -> (r: usize)
    ensures
        r == first_index(bytes@, byte),
        r <= bytes@.len(),
{
    let mut i: usize = 0;
    assert(bytes@.skip(0) =~= bytes@);
    while i < bytes.len() && bytes[i] != byte
        invariant
            i <= bytes@.len(),
            first_index(bytes@, byte) == i + first_index(bytes@.skip(i as int), byte),
        decreases bytes@.len() - i,
    {
        assert(bytes@.skip(i as int).skip(1) =~= bytes@.skip(i + 1));
        i = i + 1;
    }
    i
}

/// The first number of more than 32 bits. Lengths are not counted beyond it.
const TOO_LONG: u64 = 0x1_0000_0000;

/// A length, or the first number of more than 32 bits where it is more.
spec fn counted(n: int) -> int {
    if n < TOO_LONG {
        n
    } else {
        TOO_LONG as int
    }
}

/// Whether a byte takes one byte in a query.
fn is_plain_in_query(byte: u8) -> (b: bool)
    ensures
        b == plain_in_query(byte),
{
    (0x30 <= byte && byte <= 0x39) || (0x41 <= byte && byte <= 0x5a) || (0x61 <= byte && byte
        <= 0x7a) || byte == 0x20 || byte == 0x2a || byte == 0x2d || byte == 0x2e || byte == 0x5f
}

/// A length, and how many bytes a text takes in a query.
fn add_encoded_len(length: u64, s: &str) -> (r: u64)
    requires
        length <= TOO_LONG,
    ensures
        r == counted(length + encoded_len(vstd::utf8::encode_utf8(s@))),
{
    let bytes = s.as_bytes();
    let mut r: u64 = length;
    let mut i: usize = 0;
    while i < bytes.len()
        invariant
            i <= bytes@.len(),
            r == counted(length + encoded_len(bytes@.take(i as int))),
        decreases bytes@.len() - i,
    {
        assert(bytes@.take(i + 1).drop_last() =~= bytes@.take(i as int));
        let taken: u64 = if is_plain_in_query(bytes[i]) {
            1
        } else {
            3
        };
        r = if r + taken < TOO_LONG {
            r + taken
        } else {
            TOO_LONG
        };
        i = i + 1;
    }
    assert(bytes@.take(i as int) =~= bytes@);
    r
}

/// Whether parameters can be appended to the query of a URL.
fn has_room_for(url: &str, params: &Params) -> (b: bool)
    ensures
        b == has_room(vstd::utf8::encode_utf8(url@), params.deep_view()),
{
    let bytes = url.as_bytes();
    let ghost all = params.deep_view();
    let end: usize = find_byte(bytes, 0x23);
    let start: usize = find_byte(bytes, 0x3f);
    if end == bytes.len() {
        return start < end || (end as u64) < TOO_LONG;
    }
    if end as u64 >= TOO_LONG {
        return false;
    }
    let mut length: u64 = end as u64;
    if start >= end {
        length = length + 1;
    }
    if params.len() > 0 && (start >= end || start + 1 == end) {
        length = length - 1;
    }
    let ghost bare = length as int;
    let mut i: usize = 0;
    assert(all.take(0) =~= seq![]);
    while i < params.len()
        invariant
            all == params.deep_view(),
            i <= params@.len(),
            length == counted(bare + query_len(all.take(i as int))),
        decreases params@.len() - i,
    {
        proof {
            assert(all.take(i + 1).drop_last() =~= all.take(i as int));
            assert(all[i as int] == params@[i as int].deep_view());
        }
        length = add_encoded_len(length, params[i].0.as_str());
        length = add_encoded_len(length, params[i].1.as_str());
        length = if length + 2 < TOO_LONG {
            length + 2
        } else {
            TOO_LONG
        };
        i = i + 1;
    }
    assert(all.take(i as int) =~= all);
    length < TOO_LONG
}

impl Subsonic {
    /// The text of the URL of an endpoint.
    fn rest_text(&self, endpoint: &str) -> (r: String)
        ensures
            r@ == rest_url_text(self.host@, endpoint@),
    {
        let host = text::trim_end_slashes(self.host.as_str());
        let endpoint = text::trim_end_str(text::trim_start_slashes(endpoint), ".view");
        let mut r = text::followed_by(host, "/rest/");
        r.append(endpoint);
        r.append(".view");
        r
    }

    /// The URL of an endpoint, of which one can be made.
    pub fn rest_url(&self, endpoint: &str) -> (r: String)
        requires
            parsed_url(rest_url_text(self.host@, endpoint@)) is Some,
        ensures
            Some(r@) == parsed_url(rest_url_text(self.host@, endpoint@)),
    {
        match parse_url(self.rest_text(endpoint).as_str()) {
            Some(url) => url,
            None => {
                assert(false);
                String::new()
            },
        }
    }

    /// The URL of an endpoint, if one can be made of the host.
    pub fn try_rest_url(&self, endpoint: &str) -> (r: Option<String>)
        ensures
            r.deep_view() == parsed_url(rest_url_text(self.host@, endpoint@)),
    {
        if parse_url(self.rest_text(endpoint).as_str()).is_some() {
            Some(self.rest_url(endpoint))
        } else {
            None
        }
    }

    /// The request that a call is sent as, with a given salt.
    pub fn get_json_with(&self, call: Call, salt: &str) -> (r: SubsonicRequest)
        requires
            parsed_url(rest_url_text(self.host@, call.endpoint@)) is Some,
        ensures
            Some(r.url@) == parsed_url(rest_url_text(self.host@, call.endpoint@)),
            r.params.deep_view() == auth_params(self.deep_view(), salt@)
                + call.params.deep_view(),
    {
        let url = self.rest_url(call.endpoint);
        let mut params = self.auth_params_with(salt);
        let mut extra = call.params;
        let ghost own = params.deep_view();
        params.append(&mut extra);
        assert(params.deep_view() =~= own + call.params.deep_view());
        SubsonicRequest { url, params }
    }

    /// The request that a call is sent as, with a new salt.
    pub fn get_json(&self, call: Call) -> (r: SubsonicRequest)
        requires
            parsed_url(rest_url_text(self.host@, call.endpoint@)) is Some,
        ensures
            Some(r.url@) == parsed_url(rest_url_text(self.host@, call.endpoint@)),
            exists|salt: Seq<char>| #[trigger]
                self.usable_salt(salt) && r.params.deep_view() == auth_params(
                    self.deep_view(),
                    salt,
                ) + call.params.deep_view(),
    {
        let salt = self.request_salt();
        self.get_json_with(call, salt.as_str())
    }

    /// The request that a call is sent as, if a URL can be made of the host.
    pub fn try_get_json(&self, call: Call) -> (r: Option<SubsonicRequest>)
        ensures
            r is Some <==> parsed_url(rest_url_text(self.host@, call.endpoint@)) is Some,
            r matches Some(request) ==> {
                &&& Some(request.url@) == parsed_url(rest_url_text(self.host@, call.endpoint@))
                &&& exists|salt: Seq<char>| #[trigger]
                    self.usable_salt(salt) && request.params.deep_view() == auth_params(
                        self.deep_view(),
                        salt,
                    ) + call.params.deep_view()
            },
    {
        if self.try_rest_url(call.endpoint).is_some() {
            Some(self.get_json(call))
        } else {
            None
        }
    }

    /// The request for a picture, with a given salt. The size is the one on the screen, in pixels,
    /// and at least one; a backdrop is asked for as large as it is.
    pub fn get_image_with(
        &self,
        item_id: &str,
        image_type: ImageType,
        scaled_size: u32,
        salt: &str,
    ) -> (r: SubsonicRequest)
        requires
            parsed_url(rest_url_text(self.host@, "getCoverArt"@)) is Some,
        ensures
            Some(r.url@) == parsed_url(rest_url_text(self.host@, "getCoverArt"@)),
            r.params.deep_view() == image_params(
                self.deep_view(),
                item_id@,
                image_type,
                scaled_size,
                salt@,
            ),
    {
        let url = self.rest_url("getCoverArt");
        let mut params = without_format(self.auth_params_with(salt));
        match image_type {
            ImageType::Backdrop => {},
            _ => {
                let size: u32 = if scaled_size == 0 {
                    1
                } else {
                    scaled_size
                };
                params.push(pair("size", text::decimal_text(size as u64).as_str()));
            },
        }
        params.push(pair("id", item_id));
        assert(params.deep_view() =~= image_params(
            self.deep_view(),
            item_id@,
            image_type,
            scaled_size,
            salt@,
        ));
        SubsonicRequest { url, params }
    }

    /// The request for a picture, with a new salt.
    pub fn get_image(&self, item_id: &str, image_type: ImageType, scaled_size: u32) -> (r:
        SubsonicRequest)
        requires
            parsed_url(rest_url_text(self.host@, "getCoverArt"@)) is Some,
        ensures
            Some(r.url@) == parsed_url(rest_url_text(self.host@, "getCoverArt"@)),
            exists|salt: Seq<char>| #[trigger]
                self.usable_salt(salt) && r.params.deep_view() == image_params(
                    self.deep_view(),
                    item_id@,
                    image_type,
                    scaled_size,
                    salt,
                ),
    {
        let salt = self.request_salt();
        self.get_image_with(item_id, image_type, scaled_size, salt.as_str())
    }

    /// The request for a picture, if a URL can be made of the host.
    pub fn try_get_image(&self, item_id: &str, image_type: ImageType, scaled_size: u32) -> (r:
        Option<SubsonicRequest>)
        ensures
            r is Some <==> parsed_url(rest_url_text(self.host@, "getCoverArt"@)) is Some,
            r matches Some(request) ==> {
                &&& Some(request.url@) == parsed_url(rest_url_text(self.host@, "getCoverArt"@))
                &&& exists|salt: Seq<char>| #[trigger]
                    self.usable_salt(salt) && request.params.deep_view() == image_params(
                        self.deep_view(),
                        item_id@,
                        image_type,
                        scaled_size,
                        salt,
                    )
            },
    {
        if self.try_rest_url("getCoverArt").is_some() {
            Some(self.get_image(item_id, image_type, scaled_size))
        } else {
            None
        }
    }

    /// The parameters of the URL of a song's stream, with a given salt.
    pub fn stream_params_with(&self, item_id: &str, settings: &Settings, salt: &str) -> (r: Params)
        requires
            has_stream_settings(*settings),
        ensures
            r.deep_view() == stream_params(self.deep_view(), item_id@, *settings, salt@),
    {
        let rate: i32 = get_max_bitrate(settings).unwrap_or(0);
        let format: &'static str = if rate > 0 {
            get_transcoding_profile(settings).codec
        } else {
            "raw"
        };
        let mut params = without_format(self.auth_params_with(salt));
        params.push(pair("id", item_id));
        params.push(pair("maxBitRate", text::decimal_int_text(rate).as_str()));
        params.push(pair("format", format));
        assert(params.deep_view() =~= stream_params(
            self.deep_view(),
            item_id@,
            *settings,
            salt@,
        ));
        params
    }

    /// The URL of a song's stream, with a given salt.
    pub fn get_stream_uri_with(&self, item_id: &str, settings: &Settings, salt: &str) -> (r: String)
        requires
            has_stream_settings(*settings),
            has_stream_uri(self.deep_view(), item_id@, *settings, salt@),
        ensures
            Some(r@) == url_with_query(
                rest_url_text(self.host@, "stream"@),
                stream_params(self.deep_view(), item_id@, *settings, salt@),
            ),
    {
        let params = self.stream_params_with(item_id, settings, salt);
        match parse_url_with_params(self.rest_text("stream").as_str(), &params) {
            Some(url) => url,
            None => {
                assert(false);
                String::new()
            },
        }
    }

    /// The URL of a song's stream, with a new salt.
    pub fn get_stream_uri(&self, item_id: &str, settings: &Settings) -> (r: String)
        requires
            has_stream_settings(*settings),
            has_stream_uri(self.deep_view(), item_id@, *settings, sample_salt()),
        ensures
            exists|salt: Seq<char>| #[trigger]
                self.usable_salt(salt) && Some(r@) == url_with_query(
                    rest_url_text(self.host@, "stream"@),
                    stream_params(self.deep_view(), item_id@, *settings, salt),
                ),
    {
        let salt = self.request_salt();
        proof {
            lemma_sample_salt();
            law_salt_takes_no_room(
                self.deep_view(),
                item_id@,
                *settings,
                salt@,
                sample_salt(),
            );
        }
        self.get_stream_uri_with(item_id, settings, salt.as_str())
    }

    /// The URL of a song's stream, if one can be made of the host, and it has room for the
    /// parameters.
    pub fn try_get_stream_uri(&self, item_id: &str, settings: &Settings) -> (r: Option<String>)
        requires
            has_stream_settings(*settings),
        ensures
            r is Some <==> has_stream_uri(self.deep_view(), item_id@, *settings, sample_salt()),
            r matches Some(uri) ==> exists|salt: Seq<char>| #[trigger]
                self.usable_salt(salt) && Some(uri@) == url_with_query(
                    rest_url_text(self.host@, "stream"@),
                    stream_params(self.deep_view(), item_id@, *settings, salt),
                ),
    {
        let params = self.stream_params_with(item_id, settings, "AAAAAAAAAAAAAAAA");
        match self.try_rest_url("stream") {
            Some(url) => if has_room_for(url.as_str(), &params) {
                Some(self.get_stream_uri(item_id, settings))
            } else {
                None
            },
            None => None,
        }
    }
}

/// What a text starts with is stripped from it alike where a text follows that does not start so.
proof fn lemma_leading_slashes_of_concat(a: Seq<char>, b: Seq<char>)
    requires
        b.len() > 0,
        b[0] != '/',
    ensures
        text::without_leading_slashes(a + b) == text::without_leading_slashes(a) + b,
    decreases a.len(),
{
    if a.len() == 0 {
        assert(a + b =~= b);
    } else if a[0] == '/' {
        assert((a + b).skip(1) =~= a.skip(1) + b);
        lemma_leading_slashes_of_concat(a.skip(1), b);
    }
}

/// Slashes after the host, slashes before the endpoint and a suffix that the endpoint already has
/// make no difference to the URL of an endpoint.
pub proof fn law_rest_url_is_normal(host: Seq<char>, endpoint: Seq<char>)
    ensures
        rest_url_text(host.push('/'), endpoint) == rest_url_text(host, endpoint),
        rest_url_text(host, seq!['/'] + endpoint) == rest_url_text(host, endpoint),
        rest_url_text(host, endpoint + ".view"@) == rest_url_text(host, endpoint),
{
    assert(host.push('/').drop_last() =~= host);
    assert((seq!['/'] + endpoint).skip(1) =~= endpoint);
    reveal_strlit(".view");
    assert(".view"@.len() == 5 && ".view"@[0] == '.');
    lemma_leading_slashes_of_concat(endpoint, ".view"@);
    let bare = text::without_leading_slashes(endpoint);
    let full = bare + ".view"@;
    assert(full.subrange(full.len() - 5, full.len() as int) =~= ".view"@);
    assert(".view"@.is_suffix_of(full));
    assert(full.take(full.len() - 5) =~= bare);
}

/// The hexadecimal digits are all different.
proof fn lemma_digits_differ(a: int, b: int)
    requires
        0 <= a < 16,
        0 <= b < 16,
        text::digit(a) == text::digit(b),
    ensures
        a == b,
{
    reveal_strlit("0123456789abcdef");
}

/// Different bytes have different hexadecimal forms.
proof fn lemma_lower_hex_injective(a: Seq<u8>, b: Seq<u8>)
    requires
        text::lower_hex(a) == text::lower_hex(b),
    ensures
        a == b,
    decreases a.len(),
{
    lemma_lower_hex_len(a);
    lemma_lower_hex_len(b);
    let n = text::lower_hex(a).len() as int;
    if a.len() > 0 {
        let x = text::lower_hex(a);
        assert(x.take(n - 2) =~= text::lower_hex(a.drop_last())) by {
            lemma_lower_hex_len(a.drop_last());
        }
        assert(x.take(n - 2) =~= text::lower_hex(b.drop_last())) by {
            lemma_lower_hex_len(b.drop_last());
        }
        lemma_lower_hex_len(a.drop_last());
        lemma_lower_hex_len(b.drop_last());
        assert(x[n - 2] == text::digit(a.last() as int / 16));
        assert(x[n - 1] == text::digit(a.last() as int % 16));
        assert(x[n - 2] == text::digit(b.last() as int / 16));
        assert(x[n - 1] == text::digit(b.last() as int % 16));
        lemma_digits_differ(a.last() as int / 16, b.last() as int / 16);
        lemma_digits_differ(a.last() as int % 16, b.last() as int % 16);
        lemma_lower_hex_injective(a.drop_last(), b.drop_last());
        assert(a =~= a.drop_last().push(a.last()));
        assert(b =~= b.drop_last().push(b.last()));
    } else {
        assert(a =~= b);
    }
}

/// With a token, no parameter of a request is a password.
pub proof fn law_token_sends_no_password(user: SubsonicView, salt: Seq<char>)
    requires
        user.auth_mode == SubsonicAuthMode::Token,
    ensures
        forall|i: int|
            0 <= i < auth_params(user, salt).len() ==> (#[trigger] auth_params(user, salt)[i]).0
                != "p"@,
{
    reveal_strlit("u");
    reveal_strlit("v");
    reveal_strlit("c");
    reveal_strlit("f");
    reveal_strlit("t");
    reveal_strlit("s");
    reveal_strlit("p");
    assert("u"@[0] != "p"@[0] && "v"@[0] != "p"@[0] && "c"@[0] != "p"@[0] && "f"@[0] != "p"@[0]
        && "t"@[0] != "p"@[0] && "s"@[0] != "p"@[0]);
}

/// A password that is sent as it is reaches the server whole: two users whose requests carry the
/// same parameters have the same name and the same password.
pub proof fn law_legacy_password_is_whole(
    user: SubsonicView,
    other: SubsonicView,
    salt: Seq<char>,
    other_salt: Seq<char>,
)
    requires
        user.auth_mode == SubsonicAuthMode::LegacyPassword,
        other.auth_mode == SubsonicAuthMode::LegacyPassword,
        auth_params(user, salt) == auth_params(other, other_salt),
    ensures
        user.username == other.username,
        user.password == other.password,
{
    let a = auth_params(user, salt);
    let b = auth_params(other, other_salt);
    assert(a[0].1 == b[0].1);
    assert(a[4].1 == b[4].1);
    let x = vstd::utf8::encode_utf8(user.password);
    let y = vstd::utf8::encode_utf8(other.password);
    let n = "enc:"@.len() as int;
    assert(a[4].1.skip(n) =~= text::lower_hex(x));
    assert(b[4].1.skip(n) =~= text::lower_hex(y));
    lemma_lower_hex_injective(x, y);
    vstd::utf8::encode_utf8_decode_utf8(user.password);
    vstd::utf8::encode_utf8_decode_utf8(other.password);
}

} // verus!
