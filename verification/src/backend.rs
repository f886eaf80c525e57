//! What the two kinds of server have in common: how a request fails, and the HTTP status codes
//! that matter.

use vstd::prelude::*;

verus! {

broadcast use vstd::string::group_string_axioms;

/// The request was not authenticated.
pub const UNAUTHORIZED: u16 = 401;

/// What was asked for is not there.
pub const NOT_FOUND: u16 = 404;

/// A server further up gave an answer that makes no sense.
pub const BAD_GATEWAY: u16 = 502;

/// Why a request to a server failed.
#[derive(Debug)]
pub enum BackendError {
    /// The server does not accept the credentials.
    AuthenticationFailed { message: String },
    /// The server answered with a status that is no success, or with an answer of no use.
    Http { status: u16, message: String },
    /// The answer could not be received.
    Transport { message: String },
}

/// What a [`BackendError`] holds.
#[verifier::ext_equal]
pub enum BackendErrorView {
    AuthenticationFailed { message: Seq<char> },
    Http { status: u16, message: Seq<char> },
    Transport { message: Seq<char> },
}

impl DeepView for BackendError {
    type V = BackendErrorView;

    open spec fn deep_view(&self) -> BackendErrorView {
        match *self {
            BackendError::AuthenticationFailed { message } =>
                BackendErrorView::AuthenticationFailed { message: message@ },
            BackendError::Http { status, message } =>
                BackendErrorView::Http { status, message: message@ },
            BackendError::Transport { message } =>
                BackendErrorView::Transport { message: message@ },
        }
    }
}

/// What the two sides of a result hold.
pub open spec fn result_view<T: DeepView, E: DeepView>(r: Result<T, E>) -> Result<T::V, E::V> {
    match r {
        Ok(t) => Ok(t.deep_view()),
        Err(e) => Err(e.deep_view()),
    }
}

/// The status codes of success.
pub open spec fn success(status: u16) -> bool {
    200 <= status < 300
}

/// Whether a status code tells of success.
pub fn is_success(status: u16) -> (b: bool)
    ensures
        b == success(status),
{
    200 <= status && status < 300
}

/// The error that an unsuccessful status with a message stands for.
pub open spec fn status_error(status: u16, message: Seq<char>) -> BackendErrorView {
    if status == UNAUTHORIZED {
        BackendErrorView::AuthenticationFailed { message }
    } else {
        BackendErrorView::Http { status, message }
    }
}

/// The error that an unsuccessful status with a message stands for: failed authentication where
/// the status says so, and otherwise the status itself.
pub fn error_for_status(status: u16, message: String) -> (e: BackendError)
    ensures
        e.deep_view() == status_error(status, message@),
{
    if status == UNAUTHORIZED {
        BackendError::AuthenticationFailed { message }
    } else {
        BackendError::Http { status, message }
    }
}

/// The body of an answer to a request for bytes: bytes where the status is a success, and
/// otherwise a message. Either can fail to arrive.
#[derive(Debug)]
pub enum BinaryBody {
    Bytes(Result<Vec<u8>, String>),
    Message(Result<String, String>),
}

/// A request that is refused is answered with failed authentication exactly where the status says
/// that, with the status otherwise, and with the message in either case.
pub proof fn law_refused_request(status: u16, message: Seq<char>)
    ensures
        status_error(status, message) is AuthenticationFailed <==> status == UNAUTHORIZED,
        status_error(status, message) matches BackendErrorView::AuthenticationFailed { message: m }
            ==> m == message,
        status_error(status, message) matches BackendErrorView::Http { status: s, message: m } ==> s
            == status && m == message,
        !(status_error(status, message) is Transport),
{
}

/// What a list holds is what its elements hold, one by one.
pub proof fn lemma_elements<T: DeepView>(list: Vec<T>)
    ensures
        list.deep_view().len() == list@.len(),
        forall|i: int|
            #![trigger list@[i]]
            #![trigger list.deep_view()[i]]
            0 <= i < list@.len() ==> list.deep_view()[i] == list@[i].deep_view(),
{
}

/// A name and a value, owned.
pub fn pair(name: &str, value: &str) -> (p: (String, String))
    ensures
        p.deep_view() == (name@, value@),
{
    (name.to_owned(), value.to_owned())
}

} // verus!
