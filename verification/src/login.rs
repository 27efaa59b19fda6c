//! Authentication policy. All verification is delegated to greetd and PAM.
//! No request, response, username or password is logged.
use vstd::prelude::*;

use crate::protocol::{AuthMessageType, Request, RequestView, Response, ResponseView};
use crate::secret::{conceal, uncover, Secret};
use crate::text::{asks_for_password, is_password_challenge, take};

verus! {

/// Shown after greetd could not start the session.
pub const LAUNCH_FAILED: &'static str = "Unable to start the desktop. Please try again.";

/// Shown after a login attempt failed.
pub const LOGIN_FAILED: &'static str = "Login failed. Check your username and password.";

/// Shown after a response that does not fit the login attempt.
pub const UNEXPECTED_RESPONSE: &'static str = "Unexpected login response. Please try again.";

/// Where a login attempt stands.
#[derive(Clone, Copy, Debug, PartialEq, Eq, Structural)]
pub enum State {
    /// No attempt is under way.
    Idle,
    /// PAM is asking its questions.
    Authenticating,
    /// The user is logged in and the session was asked for.
    Starting,
    /// The attempt was given up and greetd has not confirmed that yet.
    Cancelling,
}

/// What the greeter does next.
pub enum Step {
    /// Sends a request to greetd.
    Send(Request),
    /// Asks the user a question.
    Prompt { text: String, secret: bool },
    /// Shows the user a text to acknowledge.
    Notice { text: String },
    /// Goes back to the empty login form.
    Reset { message: String },
    /// Leaves: the session is about to start.
    Finished,
    /// Stops talking to greetd.
    Fatal,
}

/// A login attempt, and the command of the session that it leads to.
pub struct Login {
    state: State,
    password: Option<Secret>,
    command: Vec<String>,
    failure: String,
    cancel_retried: bool,
}

/// What a step says.
#[verifier::ext_equal]
pub enum StepView {
    Send(RequestView),
    Prompt { text: Seq<char>, secret: bool },
    Notice { text: Seq<char> },
    Reset { message: Seq<char> },
    Finished,
    Fatal,
}

/// What a login attempt holds.
#[verifier::ext_equal]
pub struct LoginView {
    /// Where the attempt stands.
    pub state: State,
    /// The password that was given at the start and has not been sent.
    pub password: Option<Seq<char>>,
    /// The command of the session.
    pub command: Seq<Seq<char>>,
    /// What the user is told once a cancellation is confirmed.
    pub failure: Seq<char>,
    /// Whether the cancellation under way was requested a second time.
    pub cancel_retried: bool,
}

impl View for Step {
    type V = StepView;

    open spec fn view(&self) -> StepView {
        match self {
            Step::Send(request) => StepView::Send(request@),
            Step::Prompt { text, secret } => StepView::Prompt { text: text@, secret: *secret },
            Step::Notice { text } => StepView::Notice { text: text@ },
            Step::Reset { message } => StepView::Reset { message: message@ },
            Step::Finished => StepView::Finished,
            Step::Fatal => StepView::Fatal,
        }
    }
}

impl View for Login {
    type V = LoginView;

    closed spec fn view(&self) -> LoginView {
        LoginView {
            state: self.state,
            password: match self.password {
                Some(secret) => Some(secret@),
                None => None,
            },
            command: self.command.deep_view(),
            failure: self.failure@,
            cancel_retried: self.cancel_retried,
        }
    }
}

impl LoginView {
    /// A password is held only while PAM is asking its questions.
    pub open spec fn wf(self) -> bool {
        self.password is Some ==> self.state == State::Authenticating
    }

    /// No attempt under way.
    pub open spec fn idle(command: Seq<Seq<char>>) -> LoginView {
        LoginView {
            state: State::Idle,
            password: None,
            command,
            failure: Seq::empty(),
            cancel_retried: false,
        }
    }

    /// An attempt that has just been given a password.
    pub open spec fn begun(self, password: Seq<char>) -> LoginView {
        LoginView { state: State::Authenticating, password: Some(password), ..self }
    }

    /// An attempt that was given up for the reason that the message tells.
    pub open spec fn cancelled(self, message: Seq<char>) -> LoginView {
        LoginView {
            state: State::Cancelling,
            password: None,
            failure: message,
            cancel_retried: false,
            ..self
        }
    }

    /// The attempt after an authentication message, and the step that it leads to.
    pub open spec fn challenged(
        self,
        message_type: AuthMessageType,
        message: Seq<char>,
    ) -> (LoginView, StepView) {
        match message_type {
            AuthMessageType::Secret => match self.password {
                Some(password) if asks_for_password(message) => (
                    LoginView { password: None, ..self },
                    StepView::Send(RequestView::PostAuthMessageResponse { response: Some(password) }),
                ),
                _ => (self, StepView::Prompt { text: message, secret: true }),
            },
            AuthMessageType::Visible => (self, StepView::Prompt { text: message, secret: false }),
            AuthMessageType::Info | AuthMessageType::Error => (
                self,
                StepView::Notice { text: message },
            ),
        }
    }

    /// The attempt after a response, and the step that it leads to.
    pub open spec fn handled(self, response: ResponseView) -> (LoginView, StepView) {
        let cancel = StepView::Send(RequestView::CancelSession);
        match (self.state, response) {
            (State::Cancelling, ResponseView::Success) => (
                LoginView { state: State::Idle, failure: Seq::empty(), ..self },
                StepView::Reset { message: self.failure },
            ),
            (State::Cancelling, ResponseView::Error { .. }) if !self.cancel_retried => (
                LoginView { cancel_retried: true, ..self },
                cancel,
            ),
            (State::Cancelling, _) => (self, StepView::Fatal),
            (State::Starting, ResponseView::Success) => (
                LoginView { state: State::Idle, password: None, ..self },
                StepView::Finished,
            ),
            (State::Authenticating, ResponseView::Success) => (
                LoginView { state: State::Starting, password: None, ..self },
                StepView::Send(
                    RequestView::StartSession { cmd: self.command, env: Seq::empty() },
                ),
            ),
            (
                State::Authenticating,
                ResponseView::AuthMessage { auth_message_type, auth_message },
            ) => self.challenged(auth_message_type, auth_message),
            (State::Starting, ResponseView::Error { .. }) => (
                self.cancelled(LAUNCH_FAILED@),
                cancel,
            ),
            (_, ResponseView::Error { .. }) => (self.cancelled(LOGIN_FAILED@), cancel),
            _ => (self.cancelled(UNEXPECTED_RESPONSE@), cancel),
        }
    }
}

impl Login {
    /// A login that leads to the session of the given command.
    pub fn new(command: Vec<String>) -> (login: Login)
        ensures
            login@ == LoginView::idle(command.deep_view()),
            login@.wf(),
    {
        Login {
            state: State::Idle,
            password: None,
            command,
            failure: String::new(),
            cancel_retried: false,
        }
    }

    /// Whether a password is held that has not been sent.
    pub fn has_password(&self) -> (res: bool)
        ensures
            res == (self@.password is Some),
    {
        self.password.is_some()
    }

    /// Starts an attempt.
    pub fn begin(&mut self, username: String, password: String) -> (step: Step)
        ensures
            final(self)@ == old(self)@.begun(password@),
            final(self)@.wf(),
            step@ == StepView::Send(RequestView::CreateSession { username: username@ }),
    {
        self.state = State::Authenticating;
        self.password = Some(conceal(password));
        Step::Send(Request::CreateSession { username })
    }

    /// Answers a question of PAM.
    pub fn answer(&mut self, answer: String) -> (step: Step)
        ensures
            final(self)@ == old(self)@,
            step@ == StepView::Send(
                RequestView::PostAuthMessageResponse { response: Some(answer@) },
            ),
    {
        Step::Send(Request::PostAuthMessageResponse { response: Some(answer) })
    }

    /// Acknowledges a text of PAM that asks nothing.
    pub fn acknowledge(&mut self) -> (step: Step)
        ensures
            final(self)@ == old(self)@,
            step@ == StepView::Send(RequestView::PostAuthMessageResponse { response: None }),
    {
        Step::Send(Request::PostAuthMessageResponse { response: None })
    }

    /// Gives the attempt up. The message is shown once greetd has confirmed it.
    pub fn cancel(&mut self, message: &str) -> (step: Step)
        ensures
            final(self)@ == old(self)@.cancelled(message@),
            final(self)@.wf(),
            step@ == StepView::Send(RequestView::CancelSession),
    {
        self.password = None;
        self.failure = message.to_string();
        self.state = State::Cancelling;
        self.cancel_retried = false;
        Step::Send(Request::CancelSession)
    }

    /// Takes in a response of greetd.
    pub fn handle(&mut self, response: Response) -> (step: Step)
        ensures
            (final(self)@, step@) == old(self)@.handled(response@),
            old(self)@.wf() ==> final(self)@.wf(),
    {
        if self.state == State::Cancelling {
            return match response {
                Response::Success => {
                    self.state = State::Idle;
                    Step::Reset { message: take(&mut self.failure) }
                },
                // greetd 0.10 takes the configuring session out of its state
                // before sending cancellation to the PAM child. If that child
                // already exited, the send fails although the state was cleared.
                // Confirm the now-empty state with one idempotent cancel request.
                Response::Error { .. } => if self.cancel_retried {
                    Step::Fatal
                } else {
                    self.cancel_retried = true;
                    Step::Send(Request::CancelSession)
                },
                Response::AuthMessage { .. } => Step::Fatal,
            };
        }
        match response {
            Response::Success if self.state == State::Starting => {
                self.password = None;
                self.state = State::Idle;
                Step::Finished
            },
            Response::Success if self.state == State::Authenticating => {
                self.password = None;
                self.state = State::Starting;
                let cmd = self.command.clone();
                proof {
                    assert(cmd.deep_view() =~= self.command.deep_view());
                }
                Step::Send(Request::StartSession { cmd, env: vec![] })
            },
            Response::AuthMessage { auth_message_type, auth_message } if self.state
                == State::Authenticating => {
                match auth_message_type {
                    AuthMessageType::Secret => {
                        // Never feed a password to an OTP or arbitrary PAM challenge.
                        if is_password_challenge(&auth_message) {
                            if let Some(password) = self.password.take() {
                                return self.answer(uncover(&password).clone());
                            }
                        }
                        Step::Prompt { text: auth_message, secret: true }
                    },
                    AuthMessageType::Visible => Step::Prompt { text: auth_message, secret: false },
                    AuthMessageType::Info | AuthMessageType::Error => {
                        Step::Notice { text: auth_message }
                    },
                }
            },
            Response::Error { .. } => self.cancel(
                if self.state == State::Starting {
                    LAUNCH_FAILED
                } else {
                    LOGIN_FAILED
                },
            ),
            _ => self.cancel(UNEXPECTED_RESPONSE),
        }
    }
}

/// The view of a login is what its fields hold: a password that the view does not
/// show is not there.
proof fn login_shows_its_fields(login: Login)
    ensures
        login@.state == login.state,
        login.password is None <==> login@.password is None,
        login.password matches Some(secret) ==> login@.password == Some(secret@),
        login@.command.len() == login.command@.len(),
        forall|i: int|
            0 <= i < login.command@.len() ==> #[trigger] login@.command[i] == login.command@[i]@,
        login@.failure == login.failure@,
        login@.cancel_retried == login.cancel_retried,
{
}

} // verus!
