//! Requests to a Subsonic server, and what its answers mean.

use vstd::prelude::*;

use crate::backend::{pair, BackendError, BackendErrorView, result_view};
use crate::config::{get_subsonic_auth_mode, max_bitrate, profile_named, Settings};
use crate::foreign;
use crate::jellyfin::api::ImageType;
use crate::text;

pub mod answers;
pub mod api;
pub mod laws;
pub mod library;
pub mod playlists;
pub mod request_laws;
pub mod songs;
pub mod urls;

verus! {

broadcast use vstd::string::group_string_axioms;

/// How Subsonic requests are authenticated.
#[derive(Debug, Clone, Copy, PartialEq, Eq, Structural)]
pub enum SubsonicAuthMode {
    /// A digest of the password and a salt that is new with each request.
    Token,
    /// The password itself, in hexadecimal.
    LegacyPassword,
}

impl Default for SubsonicAuthMode {
    fn default() -> (r: SubsonicAuthMode)
        ensures
            r == SubsonicAuthMode::Token,
    {
        SubsonicAuthMode::Token
    }
}

impl SubsonicAuthMode {
    /// The name of the mode in the settings.
    pub open spec fn name(self) -> Seq<char> {
        match self {
            SubsonicAuthMode::Token => "token"@,
            SubsonicAuthMode::LegacyPassword => "legacy-password"@,
        }
    }

    /// The mode that a name stands for. Any other name stands for the token.
    pub open spec fn named(name: Seq<char>) -> SubsonicAuthMode {
        if name == "legacy-password"@ {
            SubsonicAuthMode::LegacyPassword
        } else {
            SubsonicAuthMode::Token
        }
    }

    /// The name of the mode in the settings.
    pub fn as_str(self) -> (r: &'static str)
        ensures
            r@ == self.name(),
    {
        match self {
            SubsonicAuthMode::Token => "token",
            SubsonicAuthMode::LegacyPassword => "legacy-password",
        }
    }

    /// The mode that a name stands for. Any other name stands for the token.
    pub fn from_str(value: &str) -> (r: SubsonicAuthMode)
        ensures
            r == SubsonicAuthMode::named(value@),
    {
        if text::same(value, "legacy-password") {
            SubsonicAuthMode::LegacyPassword
        } else {
            SubsonicAuthMode::Token
        }
    }
}

/// A mode is read back from its name.
pub proof fn law_auth_mode_is_read_back(mode: SubsonicAuthMode)
    ensures
        SubsonicAuthMode::named(mode.name()) == mode,
{
    reveal_strlit("token");
    reveal_strlit("legacy-password");
    assert("token"@.len() != "legacy-password"@.len());
}

/// The version of the protocol that requests are made in.
pub const SUBSONIC_API_VERSION: &'static str = "1.15.0";

/// What the player calls itself in requests.
pub const SUBSONIC_CLIENT_NAME: &'static str = "gelly";

/// How many characters a salt has.
pub const SALT_LENGTH: usize = 16;

/// A user of a Subsonic server.
#[derive(Debug, Clone)]
pub struct Subsonic {
    pub host: String,
    pub username: String,
    pub password: String,
    pub auth_mode: SubsonicAuthMode,
}

/// What a [`Subsonic`] holds.
#[verifier::ext_equal]
pub struct SubsonicView {
    pub host: Seq<char>,
    pub username: Seq<char>,
    pub password: Seq<char>,
    pub auth_mode: SubsonicAuthMode,
}

impl DeepView for Subsonic {
    type V = SubsonicView;

    open spec fn deep_view(&self) -> SubsonicView {
        SubsonicView {
            host: self.host@,
            username: self.username@,
            password: self.password@,
            auth_mode: self.auth_mode,
        }
    }
}

/// Names and values, as requests carry them.
pub type Params = Vec<(String, String)>;

/// What a request asks of the server: an endpoint, and parameters of its own.
#[derive(Debug)]
pub struct Call {
    pub endpoint: &'static str,
    pub params: Params,
}

/// What a [`Call`] holds.
#[verifier::ext_equal]
pub struct CallView {
    pub endpoint: Seq<char>,
    pub params: Seq<(Seq<char>, Seq<char>)>,
}

impl DeepView for Call {
    type V = CallView;

    open spec fn deep_view(&self) -> CallView {
        CallView { endpoint: self.endpoint@, params: self.params.deep_view() }
    }
}

/// A request as it is sent: a URL, and the parameters to put into its query.
#[derive(Debug)]
pub struct SubsonicRequest {
    pub url: String,
    pub params: Params,
}

/// The text of the URL of an endpoint of a host.
pub open spec fn rest_url_text(host: Seq<char>, endpoint: Seq<char>) -> Seq<char> {
    text::without_trailing_slashes(host) + "/rest/"@ + text::without_suffixes(
        text::without_leading_slashes(endpoint),
        ".view"@,
    ) + ".view"@
}

/// What a salt is: as many ASCII letters and digits as a salt has characters.
pub open spec fn is_salt(s: Seq<char>) -> bool {
    s.len() == SALT_LENGTH && forall|i: int|
        0 <= i < s.len() ==> foreign::alphanumeric(#[trigger] s[i])
}

/// What authenticates a request by a digest and the salt that went into it.
pub open spec fn token_params(digest: Seq<u8>, salt: Seq<char>) -> Seq<(Seq<char>, Seq<char>)> {
    seq![("t"@, text::lower_hex(digest)), ("s"@, salt)]
}

/// What authenticates a request beside the name of the user.
pub open spec fn proof_params(user: SubsonicView, salt: Seq<char>) -> Seq<(Seq<char>, Seq<char>)> {
    match user.auth_mode {
        SubsonicAuthMode::Token => token_params(
            foreign::md5_digest(vstd::utf8::encode_utf8(user.password + salt))@,
            salt,
        ),
        SubsonicAuthMode::LegacyPassword => seq![
            ("p"@, "enc:"@ + text::lower_hex(vstd::utf8::encode_utf8(user.password))),
        ],
    }
}

/// The parameters that every request for JSON carries.
pub open spec fn auth_params(user: SubsonicView, salt: Seq<char>) -> Seq<(Seq<char>, Seq<char>)> {
    seq![
        ("u"@, user.username),
        ("v"@, SUBSONIC_API_VERSION@),
        ("c"@, SUBSONIC_CLIENT_NAME@),
        ("f"@, "json"@),
    ] + proof_params(user, salt)
}

/// The predicate that holds of every parameter but the one for the format of the answer.
pub open spec fn no_format() -> spec_fn((Seq<char>, Seq<char>)) -> bool {
    |p: (Seq<char>, Seq<char>)| p.0 != "f"@
}

/// The parameters that every request for bytes carries: there, no format is asked for.
pub open spec fn bytes_params(user: SubsonicView, salt: Seq<char>) -> Seq<(Seq<char>, Seq<char>)> {
    auth_params(user, salt).filter(no_format())
}

/// The parameters of a request for a picture.
pub open spec fn image_params(
    user: SubsonicView,
    item_id: Seq<char>,
    image_type: ImageType,
    scaled_size: u32,
    salt: Seq<char>,
) -> Seq<(Seq<char>, Seq<char>)> {
    let size: nat = if scaled_size == 0 {
        1
    } else {
        scaled_size as nat
    };
    let sized = if image_type is Backdrop {
        bytes_params(user, salt)
    } else {
        bytes_params(user, salt).push(("size"@, text::decimal(size)))
    };
    sized.push(("id"@, item_id))
}

/// The largest bit rate to ask a server for, and zero for no limit.
pub open spec fn stream_bitrate(settings: Settings) -> i32 {
    match max_bitrate(settings) {
        Some(rate) => rate,
        None => 0,
    }
}

/// The format to ask a server for: a codec where the bit rate is limited, and otherwise the song
/// as it is.
pub open spec fn stream_format(settings: Settings) -> Seq<char> {
    if stream_bitrate(settings) > 0 {
        profile_named(settings.text_at("transcoding-profile"@)).codec
    } else {
        "raw"@
    }
}

/// The parameters of the URL of a song's stream.
pub open spec fn stream_params(
    user: SubsonicView,
    item_id: Seq<char>,
    settings: Settings,
    salt: Seq<char>,
) -> Seq<(Seq<char>, Seq<char>)> {
    bytes_params(user, salt).push(("id"@, item_id)).push(
        ("maxBitRate"@, text::decimal_int(stream_bitrate(settings) as int)),
    ).push(("format"@, stream_format(settings)))
}

/// Whether the settings hold what the URL of a stream depends on.
pub open spec fn has_stream_settings(settings: Settings) -> bool {
    &&& settings.has_int("max-bitrate"@)
    &&& settings.has_text("backend-type"@)
    &&& settings.has_text("transcoding-profile"@)
}

/// A new salt.
pub fn new_salt() -> (r: String)
    ensures
        is_salt(r@),
{
    let mut r = String::new();
    let mut i: usize = 0;
    while i < SALT_LENGTH
        invariant
            i <= SALT_LENGTH,
            r@.len() == i,
            forall|j: int| 0 <= j < i ==> foreign::alphanumeric(#[trigger] r@[j]),
        decreases SALT_LENGTH - i,
    {
        let c = foreign::random_alphanumeric();
        r.append(c.as_str());
        i = i + 1;
    }
    r
}

/// Adds what authenticates a request by a digest and the salt that went into it.
pub fn push_token(params: &mut Params, digest: &[u8], salt: &str)
    ensures
        final(params).deep_view() == old(params).deep_view() + token_params(digest@, salt@),
{
    let ghost before = params.deep_view();
    let token = text::lower_hex_text(digest);
    params.push(pair("t", token.as_str()));
    params.push(pair("s", salt));
    assert(params.deep_view() =~= before + token_params(digest@, salt@));
}

/// The parameters without the one for the format of the answer.
pub(crate) fn without_format(params: Params) -> (r: Params)
    ensures
        r.deep_view() == params.deep_view().filter(no_format()),
{
    let ghost all = params.deep_view();
    let ghost items = params@;
    let mut r: Params = Vec::new();
    proof {
        reveal(Seq::filter);
        assert(all.take(0).filter(no_format()) =~= r.deep_view());
    }
    for p in it: params
        invariant
            it.seq() == items,
            all.len() == items.len(),
            forall|i: int| 0 <= i < items.len() ==> #[trigger] all[i] == items[i].deep_view(),
            r.deep_view() == all.take(it.index() as int).filter(no_format()),
    {
        proof {
            reveal(Seq::filter);
            assert(all.take(it.index() + 1).drop_last() =~= all.take(it.index() as int));
            assert(all[it.index() as int] == p.deep_view());
        }
        let ghost before = r.deep_view();
        if !text::same(p.0.as_str(), "f") {
            r.push(p);
            assert(r.deep_view() =~= before.push(p.deep_view()));
        }
    }
    assert(all.take(all.len() as int) =~= all);
    r
}

impl Subsonic {
    /// A user of the server at `host`, who is authenticated as the settings say.
    pub fn new(host: &str, username: &str, password: &str, settings: &Settings) -> (r: Subsonic)
        requires
            settings.has_text("subsonic-auth-mode"@),
        ensures
            r.deep_view() == (SubsonicView {
                host: host@,
                username: username@,
                password: password@,
                auth_mode: SubsonicAuthMode::named(settings.text_at("subsonic-auth-mode"@)),
            }),
    {
        Subsonic {
            host: host.to_owned(),
            username: username.to_owned(),
            password: password.to_owned(),
            auth_mode: get_subsonic_auth_mode(settings),
        }
    }

    /// Whether everything is there that authentication takes.
    pub fn is_authenticated(&self) -> (b: bool)
        ensures
            b == (self.host@.len() > 0 && self.username@.len() > 0 && self.password@.len() > 0),
    {
        !self.host.as_str().is_empty() && !self.username.as_str().is_empty()
            && !self.password.as_str().is_empty()
    }

    /// A user of the server at `host` who wants to log in, if nothing that a log-in takes is blank.
    /// The server confirms the log-in by its answer to [`Subsonic::ping`].
    pub fn new_authenticate(
        host: &str,
        username: &str,
        password: &str,
        settings: &Settings,
    ) -> (r: Result<Subsonic, BackendError>)
        requires
            settings.has_text("subsonic-auth-mode"@),
        ensures
            result_view(r) == if text::trimmed(host@).len() == 0 || text::trimmed(username@).len()
                == 0 || text::trimmed(password@).len() == 0 {
                Err(
                    BackendErrorView::AuthenticationFailed {
                        message: "Missing host/username/password"@,
                    },
                )
            } else {
                Ok(
                    SubsonicView {
                        host: host@,
                        username: username@,
                        password: password@,
                        auth_mode: SubsonicAuthMode::named(settings.text_at("subsonic-auth-mode"@)),
                    },
                )
            },
    {
        if text::trim(host).is_empty() || text::trim(username).is_empty() || text::trim(
            password,
        ).is_empty() {
            Err(
                BackendError::AuthenticationFailed {
                    message: "Missing host/username/password".to_owned(),
                },
            )
        } else {
            Ok(Subsonic::new(host, username, password, settings))
        }
    }

    /// The parameters that every request for JSON carries, with a given salt.
    pub fn auth_params_with(&self, salt: &str) -> (r: Params)
        ensures
            r.deep_view() == auth_params(self.deep_view(), salt@),
    {
        let mut params = vec![
            pair("u", self.username.as_str()),
            pair("v", SUBSONIC_API_VERSION),
            pair("c", SUBSONIC_CLIENT_NAME),
            pair("f", "json"),
        ];
        match self.auth_mode {
            SubsonicAuthMode::Token => {
                let salted = text::followed_by(self.password.as_str(), salt);
                let digest = foreign::md5_compute(salted.as_str().as_bytes());
                push_token(&mut params, digest.as_slice(), salt);
            },
            SubsonicAuthMode::LegacyPassword => {
                let encoded = text::lower_hex_text(self.password.as_str().as_bytes());
                params.push(pair("p", text::followed_by("enc:", encoded.as_str()).as_str()));
            },
        }
        assert(params.deep_view() =~= auth_params(self.deep_view(), salt@));
        params
    }

    /// Whether `salt` can be the salt of a request.
    pub open spec fn usable_salt(self, salt: Seq<char>) -> bool {
        self.auth_mode == SubsonicAuthMode::Token ==> is_salt(salt)
    }

    /// The salt of a new request. A password that is sent as it is takes none.
    pub(crate) fn request_salt(&self) -> (r: String)
        ensures
            self.usable_salt(r@),
    {
        match self.auth_mode {
            SubsonicAuthMode::Token => new_salt(),
            SubsonicAuthMode::LegacyPassword => String::new(),
        }
    }

    /// The parameters that every request for JSON carries, with a new salt.
    pub fn auth_params(&self) -> (r: Params)
        ensures
            exists|salt: Seq<char>| #[trigger]
                self.usable_salt(salt) && r.deep_view() == auth_params(self.deep_view(), salt),
    {
        let salt = self.request_salt();
        self.auth_params_with(salt.as_str())
    }
}

} // verus!
