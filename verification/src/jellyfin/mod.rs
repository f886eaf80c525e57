//! Requests to a Jellyfin server, and what its answers mean.

use vstd::prelude::*;

use crate::backend::{
    error_for_status, is_success, pair, result_view, status_error, success, BackendError,
    BackendErrorView, BinaryBody,
};
use crate::foreign;
use crate::jellyfin::api::{
    AuthenticateResponse, NewPlaylist, NewPlaylistView, PlaybackReport, PlaybackReportView,
};
use crate::text;

pub mod api;
pub mod laws;
pub mod library;
pub mod requests;

verus! {

broadcast use vstd::string::group_string_axioms;

/// What the player calls itself.
pub const CLIENT_ID: &'static str = "Gelly";

/// A user of a Jellyfin server.
#[derive(Debug, Clone)]
pub struct Jellyfin {
    pub host: String,
    pub token: String,
    pub user_id: String,
}

/// What a [`Jellyfin`] holds.
#[verifier::ext_equal]
pub struct JellyfinView {
    pub host: Seq<char>,
    pub token: Seq<char>,
    pub user_id: Seq<char>,
}

impl DeepView for Jellyfin {
    type V = JellyfinView;

    open spec fn deep_view(&self) -> JellyfinView {
        JellyfinView { host: self.host@, token: self.token@, user_id: self.user_id@ }
    }
}

/// The device that the player runs on, and the player's version.
#[derive(Debug)]
pub struct Device {
    pub hostname: String,
    pub uuid: String,
    pub version: String,
}

/// What a [`Device`] holds.
#[verifier::ext_equal]
pub struct DeviceView {
    pub hostname: Seq<char>,
    pub uuid: Seq<char>,
    pub version: Seq<char>,
}

impl DeepView for Device {
    type V = DeviceView;

    open spec fn deep_view(&self) -> DeviceView {
        DeviceView { hostname: self.hostname@, uuid: self.uuid@, version: self.version@ }
    }
}

/// Names and values, as requests carry them.
pub type Params = Vec<(String, String)>;

/// The method of an HTTP request.
#[derive(Debug, Clone, Copy, PartialEq, Eq, Structural)]
pub enum Method {
    Get,
    Post,
    Delete,
}

/// The body of an HTTP request.
#[derive(Debug)]
pub enum Body {
    /// No body.
    Empty,
    /// A text.
    Text(String),
    /// A text that is JSON.
    Json(String),
    /// A playlist to create, as JSON.
    NewPlaylist(NewPlaylist),
    /// A playback report, as JSON.
    PlaybackReport(PlaybackReport),
}

/// What a [`Body`] holds.
#[verifier::ext_equal]
pub enum BodyView {
    Empty,
    Text(Seq<char>),
    Json(Seq<char>),
    NewPlaylist(NewPlaylistView),
    PlaybackReport(PlaybackReportView),
}

impl DeepView for Body {
    type V = BodyView;

    open spec fn deep_view(&self) -> BodyView {
        match *self {
            Body::Empty => BodyView::Empty,
            Body::Text(text) => BodyView::Text(text@),
            Body::Json(json) => BodyView::Json(json@),
            Body::NewPlaylist(playlist) => BodyView::NewPlaylist(playlist.deep_view()),
            Body::PlaybackReport(report) => BodyView::PlaybackReport(report.deep_view()),
        }
    }
}

/// An HTTP request.
#[derive(Debug)]
pub struct HttpRequest {
    pub method: Method,
    pub url: String,
    /// The parameters to put into the query of the URL.
    pub params: Params,
    /// The value of the header `Authorization`.
    pub authorization: String,
    pub body: Body,
}

/// What an [`HttpRequest`] holds.
#[verifier::ext_equal]
pub struct HttpRequestView {
    pub method: Method,
    pub url: Seq<char>,
    pub params: Seq<(Seq<char>, Seq<char>)>,
    pub authorization: Seq<char>,
    pub body: BodyView,
}

impl DeepView for HttpRequest {
    type V = HttpRequestView;

    open spec fn deep_view(&self) -> HttpRequestView {
        HttpRequestView {
            method: self.method,
            url: self.url@,
            params: self.params.deep_view(),
            authorization: self.authorization@,
            body: self.body.deep_view(),
        }
    }
}

/// Whether everything is there that authentication takes.
pub open spec fn authenticated(user: JellyfinView) -> bool {
    user.token.len() > 0 && user.user_id.len() > 0 && user.host.len() > 0
}

/// The user that a server has logged in.
pub open spec fn logged_in(host: Seq<char>, response: AuthenticateResponse) -> JellyfinView {
    JellyfinView { host, token: response.access_token@, user_id: response.user.id@ }
}

/// The URL of an endpoint of a host, with one slash between the two.
pub open spec fn endpoint_url(host: Seq<char>, endpoint: Seq<char>) -> Seq<char> {
    text::without_trailing_slashes(host) + "/"@ + text::without_leading_slashes(endpoint)
}

/// The header by which a user and a device authenticate a request.
pub open spec fn authorization(token: Seq<char>, device: DeviceView) -> Seq<char> {
    let client = "MediaBrowser Client=\""@ + CLIENT_ID@ + "\", Device=\""@ + device.hostname
        + "\", DeviceId=\""@ + device.uuid + "\", Version=\""@ + device.version + "\""@;
    if token.len() > 0 {
        client + ", Token=\""@ + token + "\""@
    } else {
        client
    }
}

/// A request of a user to an endpoint.
pub open spec fn http_request(
    user: JellyfinView,
    device: DeviceView,
    method: Method,
    endpoint: Seq<char>,
    params: Seq<(Seq<char>, Seq<char>)>,
    body: BodyView,
) -> HttpRequestView {
    HttpRequestView {
        method,
        url: endpoint_url(user.host, endpoint),
        params,
        authorization: authorization(user.token, device),
        body,
    }
}

/// The name of the device, given what the system says it is.
pub fn get_hostname(read: Option<String>) -> (r: String)
    ensures
        r@ == text::trimmed(
            match read {
                Some(name) => name@,
                None => "Gelly-Device"@,
            },
        ),
{
    match read {
        Some(name) => text::trim(name.as_str()).to_owned(),
        None => text::trim("Gelly-Device").to_owned(),
    }
}

/// What the player calls itself towards servers, with its version.
pub fn user_agent(version: &str) -> (r: String)
    ensures
        r@ == "Gelly/"@ + version@,
{
    text::followed_by("Gelly/", version)
}

/// For how many seconds a connection is waited for.
pub const CONNECT_TIMEOUT_SECONDS: u64 = 10;

/// For how many seconds an answer is waited for.
pub const TIMEOUT_SECONDS: u64 = 30;

impl Default for Jellyfin {
    fn default() -> (r: Jellyfin)
        ensures
            r.deep_view() == (JellyfinView { host: seq![], token: seq![], user_id: seq![] }),
    {
        proof {
            reveal_strlit("");
        }
        Jellyfin::new("", "", "")
    }
}

impl Jellyfin {
    /// A user of the server at `host`.
    pub fn new(host: &str, token: &str, user_id: &str) -> (r: Jellyfin)
        ensures
            r.deep_view() == (JellyfinView { host: host@, token: token@, user_id: user_id@ }),
    {
        Jellyfin { host: host.to_owned(), token: token.to_owned(), user_id: user_id.to_owned() }
    }

    /// Whether everything is there that authentication takes.
    pub fn is_authenticated(&self) -> (b: bool)
        ensures
            b == authenticated(self.deep_view()),
    {
        !self.token.as_str().is_empty() && !self.user_id.as_str().is_empty()
            && !self.host.as_str().is_empty()
    }

    /// The user that a server has logged in with a name and a password.
    pub fn new_authenticate(host: &str, response: AuthenticateResponse) -> (r: Jellyfin)
        ensures
            r.deep_view() == logged_in(host@, response),
    {
        let mut jellyfin = Jellyfin::new(host, "", "");
        jellyfin.token = response.access_token;
        jellyfin.user_id = response.user.id;
        jellyfin
    }

    /// The user that a server has logged in by a code.
    pub fn new_authenticate_quick_connect(host: &str, response: AuthenticateResponse) -> (r:
        Jellyfin)
        ensures
            r.deep_view() == logged_in(host@, response),
    {
        Jellyfin::new_authenticate(host, response)
    }

    /// The URL of an endpoint.
    pub fn format_url(&self, endpoint: &str) -> (r: String)
        ensures
            r@ == endpoint_url(self.host@, endpoint@),
    {
        let mut r = text::followed_by(text::trim_end_slashes(self.host.as_str()), "/");
        r.append(text::trim_start_slashes(endpoint));
        r
    }

    /// The header by which the user and the device authenticate a request.
    pub fn auth_header(&self, device: &Device) -> (r: String)
        ensures
            r@ == authorization(self.token@, device.deep_view()),
    {
        let mut r = text::followed_by("MediaBrowser Client=\"", CLIENT_ID);
        r.append("\", Device=\"");
        r.append(device.hostname.as_str());
        r.append("\", DeviceId=\"");
        r.append(device.uuid.as_str());
        r.append("\", Version=\"");
        r.append(device.version.as_str());
        r.append("\"");
        if !self.token.as_str().is_empty() {
            r.append(", Token=\"");
            r.append(self.token.as_str());
            r.append("\"");
        }
        r
    }

    /// A request with a JSON body.
    pub fn post_json(&self, device: &Device, endpoint: &str, body: Body) -> (r: HttpRequest)
        ensures
            r.deep_view() == http_request(
                self.deep_view(),
                device.deep_view(),
                Method::Post,
                endpoint@,
                seq![],
                body.deep_view(),
            ),
    {
        let params: Params = Vec::new();
        assert(params.deep_view() =~= seq![]);
        HttpRequest {
            method: Method::Post,
            url: self.format_url(endpoint),
            params,
            authorization: self.auth_header(device),
            body,
        }
    }

    /// A request that has the server do something. Its body is an empty text.
    pub fn post(&self, device: &Device, endpoint: &str, params: Params) -> (r: HttpRequest)
        ensures
            r.deep_view() == http_request(
                self.deep_view(),
                device.deep_view(),
                Method::Post,
                endpoint@,
                params.deep_view(),
                BodyView::Text(seq![]),
            ),
    {
        HttpRequest {
            method: Method::Post,
            url: self.format_url(endpoint),
            params,
            authorization: self.auth_header(device),
            body: Body::Text(String::new()),
        }
    }

    /// A request for something.
    pub fn get(&self, device: &Device, endpoint: &str, params: Params) -> (r: HttpRequest)
        ensures
            r.deep_view() == http_request(
                self.deep_view(),
                device.deep_view(),
                Method::Get,
                endpoint@,
                params.deep_view(),
                BodyView::Empty,
            ),
    {
        HttpRequest {
            method: Method::Get,
            url: self.format_url(endpoint),
            params,
            authorization: self.auth_header(device),
            body: Body::Empty,
        }
    }

    /// A request that has the server delete something.
    pub fn delete(&self, device: &Device, endpoint: &str, params: Params) -> (r: HttpRequest)
        ensures
            r.deep_view() == http_request(
                self.deep_view(),
                device.deep_view(),
                Method::Delete,
                endpoint@,
                params.deep_view(),
                BodyView::Empty,
            ),
    {
        HttpRequest {
            method: Method::Delete,
            url: self.format_url(endpoint),
            params,
            authorization: self.auth_header(device),
            body: Body::Empty,
        }
    }

    /// The request that logs in with a name and a password.
    pub fn authenticate(&self, device: &Device, username: &str, password: &str) -> (r: HttpRequest)
        ensures
            r.deep_view() == http_request(
                self.deep_view(),
                device.deep_view(),
                Method::Post,
                "Users/authenticatebyname"@,
                seq![],
                BodyView::Json(
                    foreign::json_object(seq![("Username"@, username@), ("Pw"@, password@)]),
                ),
            ),
    {
        let members: Params = vec![pair("Username", username), pair("Pw", password)];
        assert(members.deep_view() =~= seq![("Username"@, username@), ("Pw"@, password@)]);
        self.post_json(
            device,
            "Users/authenticatebyname",
            Body::Json(foreign::json_object_text(&members)),
        )
    }

    /// The request that logs in by a code that was confirmed.
    pub fn new_authenticate_quick_connect_request(&self, device: &Device, secret: &str) -> (r:
        HttpRequest)
        ensures
            r.deep_view() == http_request(
                self.deep_view(),
                device.deep_view(),
                Method::Post,
                "Users/authenticatewithquickconnect"@,
                seq![],
                BodyView::Json(foreign::json_object(seq![("secret"@, secret@)])),
            ),
    {
        let members: Params = vec![pair("secret", secret)];
        assert(members.deep_view() =~= seq![("secret"@, secret@)]);
        self.post_json(
            device,
            "Users/authenticatewithquickconnect",
            Body::Json(foreign::json_object_text(&members)),
        )
    }

    /// The body of an answer with a successful status, and otherwise the error that it stands for.
    pub fn handle_response(&self, status: u16, body: Result<String, String>) -> (r: Result<
        String,
        BackendError,
    >)
        ensures
            result_view(r) == if success(status) {
                match body {
                    Ok(body) => Ok(body@),
                    Err(failure) => Err(BackendErrorView::Transport { message: failure@ }),
                }
            } else {
                Err(status_error(status, error_message(body)))
            },
    {
        if is_success(status) {
            match body {
                Ok(body) => Ok(body),
                Err(failure) => Err(BackendError::Transport { message: failure }),
            }
        } else {
            Err(error_for_status(status, message_of(body)))
        }
    }

    /// The bytes of an answer with a successful status, and otherwise the error that it stands
    /// for. What is read of an answer depends on its status: bytes or a message.
    pub fn handle_binary_response(&self, status: u16, body: BinaryBody) -> (r: Result<
        Vec<u8>,
        BackendError,
    >)
        requires
            success(status) <==> body is Bytes,
        ensures
            result_view(r) == match body {
                BinaryBody::Bytes(Ok(bytes)) => Ok(bytes@),
                BinaryBody::Bytes(Err(failure)) => Err(
                    BackendErrorView::Transport { message: failure@ },
                ),
                BinaryBody::Message(message) => Err(status_error(status, error_message(message))),
            },
    {
        match body {
            BinaryBody::Bytes(Ok(bytes)) => {
                assert(bytes.deep_view() =~= bytes@);
                Ok(bytes)
            },
            BinaryBody::Bytes(Err(failure)) => Err(BackendError::Transport { message: failure }),
            BinaryBody::Message(message) => Err(error_for_status(status, message_of(message))),
        }
    }
}

/// The message of an unsuccessful answer.
pub open spec fn error_message(message: Result<String, String>) -> Seq<char> {
    match message {
        Ok(message) => message@,
        Err(_) => "Unknown Error"@,
    }
}

/// The message of an unsuccessful answer.
fn message_of(message: Result<String, String>) -> (r: String)
    ensures
        r@ == error_message(message),
{
    match message {
        Ok(message) => message,
        Err(_) => "Unknown Error".to_owned(),
    }
}

/// The user that a server has logged in is authenticated exactly where the server gave a token and
/// an identifier, and the host has a name.
pub proof fn law_logged_in_user_is_authenticated(host: Seq<char>, response: AuthenticateResponse)
    ensures
        authenticated(logged_in(host, response)) <==> host.len() > 0
            && response.access_token@.len() > 0 && response.user.id@.len() > 0,
{
}

/// Slashes at the end of the host and at the start of the endpoint make no difference to the URL.
pub proof fn law_url_ignores_slashes(host: Seq<char>, endpoint: Seq<char>)
    ensures
        endpoint_url(host.push('/'), endpoint) == endpoint_url(host, endpoint),
        endpoint_url(host, seq!['/'] + endpoint) == endpoint_url(host, endpoint),
{
    assert(host.push('/').drop_last() =~= host);
    assert((seq!['/'] + endpoint).drop_first() =~= endpoint);
}

/// Requests of two users at one host and one device carry the same header only where the users
/// have the same token.
pub proof fn law_header_tells_token(token: Seq<char>, other: Seq<char>, device: DeviceView)
    requires
        authorization(token, device) == authorization(other, device),
    ensures
        token == other,
{
    reveal_strlit(", Token=\"");
    reveal_strlit("\"");
    let client = authorization(seq![], device);
    let with_token = client + ", Token=\""@ + token + "\""@;
    let with_other = client + ", Token=\""@ + other + "\""@;
    let start = (client + ", Token=\""@).len() as int;
    if token.len() > 0 && other.len() > 0 {
        assert(token =~= with_token.subrange(start, with_token.len() - 1));
        assert(other =~= with_other.subrange(start, with_other.len() - 1));
    } else {
        assert(token =~= other);
    }
}

} // verus!
