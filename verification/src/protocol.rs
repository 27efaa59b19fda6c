//! The messages that a greeter and greetd exchange.
use vstd::prelude::*;

use crate::secret::wipe;

verus! {

/// A request from the greeter to greetd.
pub enum Request {
    /// Starts a login attempt for a user.
    CreateSession { username: String },
    /// Answers the last authentication message, or acknowledges it with `None`.
    PostAuthMessageResponse { response: Option<String> },
    /// Starts the session of a user who is logged in.
    StartSession { cmd: Vec<String>, env: Vec<String> },
    /// Gives the login attempt up.
    CancelSession,
}

/// The kind of an error that greetd reports.
#[derive(Clone, Copy, Debug, PartialEq, Eq, Structural)]
pub enum ErrorType {
    /// An error of any kind.
    Error,
    /// A failed authentication.
    AuthError,
}

/// The kind of an authentication message.
#[derive(Clone, Copy, Debug, PartialEq, Eq, Structural)]
pub enum AuthMessageType {
    /// A question whose answer may be shown.
    Visible,
    /// A question whose answer is kept secret.
    Secret,
    /// An information.
    Info,
    /// An error message.
    Error,
}

/// A response from greetd to the greeter.
pub enum Response {
    /// The request was carried out.
    Success,
    /// The request failed.
    Error { error_type: ErrorType, description: String },
    /// The request led to an authentication message.
    AuthMessage { auth_message_type: AuthMessageType, auth_message: String },
}

/// What a request says.
#[verifier::ext_equal]
pub enum RequestView {
    CreateSession { username: Seq<char> },
    PostAuthMessageResponse { response: Option<Seq<char>> },
    StartSession { cmd: Seq<Seq<char>>, env: Seq<Seq<char>> },
    CancelSession,
}

/// What a response says.
#[verifier::ext_equal]
pub enum ResponseView {
    Success,
    Error { error_type: ErrorType, description: Seq<char> },
    AuthMessage { auth_message_type: AuthMessageType, auth_message: Seq<char> },
}

/// The characters of a string, if there is one.
pub open spec fn optional_text(text: Option<String>) -> Option<Seq<char>> {
    match text {
        Some(text) => Some(text@),
        None => None,
    }
}

impl View for Request {
    type V = RequestView;

    open spec fn view(&self) -> RequestView {
        match self {
            Request::CreateSession { username } => RequestView::CreateSession {
                username: username@,
            },
            Request::PostAuthMessageResponse { response } => RequestView::PostAuthMessageResponse {
                response: optional_text(*response),
            },
            Request::StartSession { cmd, env } => RequestView::StartSession {
                cmd: cmd.deep_view(),
                env: env.deep_view(),
            },
            Request::CancelSession => RequestView::CancelSession,
        }
    }
}

impl View for Response {
    type V = ResponseView;

    open spec fn view(&self) -> ResponseView {
        match self {
            Response::Success => ResponseView::Success,
            Response::Error { error_type, description } => ResponseView::Error {
                error_type: *error_type,
                description: description@,
            },
            Response::AuthMessage { auth_message_type, auth_message } => ResponseView::AuthMessage {
                auth_message_type: *auth_message_type,
                auth_message: auth_message@,
            },
        }
    }
}

impl RequestView {
    /// The request without the answer that it carried.
    pub open spec fn without_answer(self) -> RequestView {
        match self {
            RequestView::PostAuthMessageResponse { response: Some(_) } =>
                RequestView::PostAuthMessageResponse { response: Some(Seq::empty()) },
            _ => self,
        }
    }
}

impl Request {
    /// Overwrites the answer that the request carries, and changes nothing else.
    pub fn wipe_answer(&mut self)
        ensures
            final(self)@ == old(self)@.without_answer(),
    {
        if let Request::PostAuthMessageResponse { response: Some(answer) } = self {
            wipe(answer);
        }
    }
}

/// Wiping leaves an empty answer in the place of an answer, and every other
/// request as it is.
pub proof fn wiping_empties_only_the_answer(request: RequestView)
    ensures
        request matches RequestView::PostAuthMessageResponse { response: Some(_) } ==> request.without_answer()
            == (RequestView::PostAuthMessageResponse { response: Some(Seq::empty()) }),
        !(request matches RequestView::PostAuthMessageResponse { response: Some(_) })
            ==> request.without_answer() == request,
{
}

/// A request is what it reads: each part of it shows in its view.
pub proof fn request_shows_its_parts(request: Request)
    ensures
        match request {
            Request::CreateSession { username } => request@ == (RequestView::CreateSession {
                username: username@,
            }),
            Request::PostAuthMessageResponse { response: Some(answer) } => request@ == (
            RequestView::PostAuthMessageResponse { response: Some(answer@) }),
            Request::PostAuthMessageResponse { response: None } => request@ == (
            RequestView::PostAuthMessageResponse { response: None }),
            Request::StartSession { cmd, env } => {
                &&& request@ matches RequestView::StartSession { cmd: words, env: settings }
                &&& words.len() == cmd@.len()
                &&& forall|i: int| 0 <= i < cmd@.len() ==> #[trigger] words[i] == cmd@[i]@
                &&& settings.len() == env@.len()
                &&& forall|i: int| 0 <= i < env@.len() ==> #[trigger] settings[i] == env@[i]@
            },
            Request::CancelSession => request@ == RequestView::CancelSession,
        },
{
}

/// A response is what it reads: each part of it shows in its view.
pub proof fn response_shows_its_parts(response: Response)
    ensures
        match response {
            Response::Success => response@ == ResponseView::Success,
            Response::Error { error_type, description } => response@ == (ResponseView::Error {
                error_type,
                description: description@,
            }),
            Response::AuthMessage { auth_message_type, auth_message } => response@ == (
            ResponseView::AuthMessage { auth_message_type, auth_message: auth_message@ }),
        },
{
}

} // verus!
