//! What holds of a login attempt as a whole, over any course of calls.
use vstd::prelude::*;

use crate::login::{LoginView, State, Step, StepView};
use crate::protocol::{AuthMessageType, ErrorType, RequestView, ResponseView};
use crate::text::asks_for_password;

verus! {

/// A call on a login attempt.
pub enum Call {
    Begin { username: Seq<char>, password: Seq<char> },
    Answer { answer: Seq<char> },
    Acknowledge,
    Cancel { message: Seq<char> },
    Handle { response: ResponseView },
}

impl LoginView {
    /// The attempt after a call, and the step that the call returns.
    pub open spec fn called(self, call: Call) -> (LoginView, StepView) {
        match call {
            Call::Begin { username, password } => (
                self.begun(password),
                StepView::Send(RequestView::CreateSession { username }),
            ),
            Call::Answer { answer } => (
                self,
                StepView::Send(RequestView::PostAuthMessageResponse { response: Some(answer) }),
            ),
            Call::Acknowledge => (
                self,
                StepView::Send(RequestView::PostAuthMessageResponse { response: None }),
            ),
            Call::Cancel { message } => (
                self.cancelled(message),
                StepView::Send(RequestView::CancelSession),
            ),
            Call::Handle { response } => self.handled(response),
        }
    }

    /// The attempt after a course of calls.
    pub open spec fn after(self, calls: Seq<Call>) -> LoginView
        decreases calls.len(),
    {
        if calls.len() == 0 {
            self
        } else {
            self.after(calls.drop_last()).called(calls.last()).0
        }
    }

    /// The step that the call with the given index returns in a course of calls.
    pub open spec fn step_at(self, calls: Seq<Call>, i: int) -> StepView {
        self.after(calls.take(i)).called(calls[i]).1
    }

    /// Whether the call with the given index answers PAM without the user.
    pub open spec fn releases_password_at(self, calls: Seq<Call>, i: int) -> bool {
        &&& calls[i] is Handle
        &&& self.step_at(calls, i) matches StepView::Send(
            RequestView::PostAuthMessageResponse { .. },
        )
    }
}

proof fn after_one_more(login: LoginView, calls: Seq<Call>, i: int)
    requires
        0 <= i < calls.len(),
    ensures
        login.after(calls.take(i + 1)) == login.after(calls.take(i)).called(calls[i]).0,
{
    assert(calls.take(i + 1).drop_last() =~= calls.take(i));
}

/// A password is held only while PAM is asking its questions, whatever is called.
pub proof fn password_is_held_only_while_authenticating(login: LoginView, calls: Seq<Call>)
    requires
        login.password is Some ==> login.state == State::Authenticating,
    ensures
        login.after(calls).password is Some ==> login.after(calls).state == State::Authenticating,
    decreases calls.len(),
{
    if calls.len() > 0 {
        password_is_held_only_while_authenticating(login, calls.drop_last());
    }
}

/// No call changes the command of the session.
pub proof fn command_is_fixed(login: LoginView, calls: Seq<Call>)
    ensures
        login.after(calls).command == login.command,
    decreases calls.len(),
{
    if calls.len() > 0 {
        command_is_fixed(login, calls.drop_last());
    }
}

/// A response of greetd makes the login answer PAM without the user in exactly
/// one case: a secret challenge that reads `Password:`, while PAM is asking and
/// the password of this attempt has not been sent. The answer is that password.
pub proof fn password_answers_only_the_password_challenge(login: LoginView, response: ResponseView)
    ensures
        (login.handled(response).1 matches StepView::Send(
            RequestView::PostAuthMessageResponse { .. },
        )) <==> {
            &&& login.state == State::Authenticating
            &&& login.password is Some
            &&& response matches ResponseView::AuthMessage { auth_message_type, auth_message }
            &&& auth_message_type == AuthMessageType::Secret
            &&& asks_for_password(auth_message)
        },
        login.handled(response).1 matches StepView::Send(
            RequestView::PostAuthMessageResponse { response: answer },
        ) ==> answer == login.password,
{
}

/// Every other question of PAM is put to the user as it is, and leaves the
/// attempt unchanged.
pub proof fn other_challenges_need_an_explicit_response(
    login: LoginView,
    message_type: AuthMessageType,
    message: Seq<char>,
)
    requires
        login.state == State::Authenticating,
        message_type == AuthMessageType::Secret ==> login.password is None || !asks_for_password(
            message,
        ),
    ensures
        ({
            let response = ResponseView::AuthMessage {
                auth_message_type: message_type,
                auth_message: message,
            };
            login.handled(response) == (
                login,
                match message_type {
                    AuthMessageType::Secret => StepView::Prompt { text: message, secret: true },
                    AuthMessageType::Visible => StepView::Prompt { text: message, secret: false },
                    _ => StepView::Notice { text: message },
                },
            )
        }),
{
}

/// But for the answer to the password challenge, no response makes the login tell
/// the password: with another password it takes the same step, and is left the
/// same but for the password that it holds.
pub proof fn password_shows_in_no_other_step(
    login: LoginView,
    other: Seq<char>,
    response: ResponseView,
)
    requires
        login.password is Some,
        !(login.handled(response).1 matches StepView::Send(
            RequestView::PostAuthMessageResponse { .. },
        )),
    ensures
        ({
            let twin = LoginView { password: Some(other), ..login };
            let (next, step) = login.handled(response);
            let (next_twin, step_twin) = twin.handled(response);
            &&& step == step_twin
            &&& next_twin == LoginView { password: next_twin.password, ..next }
            &&& next.password is Some <==> next_twin.password is Some
            &&& next.password is Some ==> next.password == login.password
        }),
{
}

proof fn no_password_appears(login: LoginView, calls: Seq<Call>, i: int, j: int)
    requires
        0 <= i <= j <= calls.len(),
        forall|k: int| i <= k < j ==> !(#[trigger] calls[k] is Begin),
        login.after(calls.take(i)).password is None,
    ensures
        login.after(calls.take(j)).password is None,
    decreases j - i,
{
    if i < j {
        no_password_appears(login, calls, i, j - 1);
        after_one_more(login, calls, j - 1);
    }
}

/// A password is sent at most once: between two calls that send it a new attempt
/// was begun.
pub proof fn password_is_sent_only_once(login: LoginView, calls: Seq<Call>, i: int, j: int)
    requires
        0 <= i < j < calls.len(),
        login.releases_password_at(calls, i),
        login.releases_password_at(calls, j),
    ensures
        exists|k: int| i < k < j && #[trigger] calls[k] is Begin,
{
    if forall|k: int| i < k < j ==> !(#[trigger] calls[k] is Begin) {
        after_one_more(login, calls, i);
        password_answers_only_the_password_challenge(
            login.after(calls.take(i)),
            calls[i]->response,
        );
        no_password_appears(login, calls, i + 1, j);
        password_answers_only_the_password_challenge(
            login.after(calls.take(j)),
            calls[j]->response,
        );
    }
}

/// Whether the calls with indices from `from` up to `to` give no attempt up and
/// start none.
pub open spec fn undisturbed(calls: Seq<Call>, from: int, to: int) -> bool {
    forall|k: int| from <= k < to ==> match #[trigger] calls[k] {
        Call::Begin { .. } | Call::Cancel { .. } => false,
        Call::Handle { response: ResponseView::Error { .. } } => false,
        _ => true,
    }
}

proof fn authenticating_was_begun(login: LoginView, calls: Seq<Call>, n: int) -> (b: int)
    requires
        0 <= n <= calls.len(),
        login.state == State::Idle,
        login.after(calls.take(n)).state == State::Authenticating,
    ensures
        0 <= b < n,
        calls[b] is Begin,
        undisturbed(calls, b + 1, n),
    decreases n,
{
    if n == 0 {
        assert(calls.take(0).len() == 0);
        0
    } else {
        after_one_more(login, calls, n - 1);
        if calls[n - 1] is Begin {
            n - 1
        } else {
            authenticating_was_begun(login, calls, n - 1)
        }
    }
}

proof fn starting_was_authenticated(login: LoginView, calls: Seq<Call>, n: int) -> (r: (int, int))
    requires
        0 <= n <= calls.len(),
        login.state == State::Idle,
        login.after(calls.take(n)).state == State::Starting,
    ensures
        0 <= r.0 < r.1 < n,
        calls[r.0] is Begin,
        undisturbed(calls, r.0 + 1, n),
        calls[r.1] == (Call::Handle { response: ResponseView::Success }),
        login.after(calls.take(r.1)).state == State::Authenticating,
    decreases n,
{
    if n == 0 {
        assert(calls.take(0).len() == 0);
        (0, 0)
    } else {
        after_one_more(login, calls, n - 1);
        if login.after(calls.take(n - 1)).state == State::Starting {
            starting_was_authenticated(login, calls, n - 1)
        } else {
            let b = authenticating_was_begun(login, calls, n - 1);
            (b, n - 1)
        }
    }
}

/// A session is asked for only in answer to a success of greetd while PAM was
/// asking, in an attempt that was begun and not given up since. It is the
/// configured command without environment.
pub proof fn session_starts_only_after_authentication(login: LoginView, calls: Seq<Call>, i: int)
    requires
        0 <= i < calls.len(),
        login.state == State::Idle,
        login.step_at(calls, i) matches StepView::Send(RequestView::StartSession { .. }),
    ensures
        calls[i] == (Call::Handle { response: ResponseView::Success }),
        login.step_at(calls, i) == StepView::Send(
            RequestView::StartSession { cmd: login.command, env: Seq::empty() },
        ),
        exists|b: int| 0 <= b < i && #[trigger] calls[b] is Begin && undisturbed(calls, b + 1, i),
{
    command_is_fixed(login, calls.take(i));
    let b = authenticating_was_begun(login, calls, i);
    assert(calls[b] is Begin);
}

/// The login finishes only with a success of greetd that follows the request for
/// the session, which itself followed the authentication.
pub proof fn login_finishes_only_after_the_session_started(
    login: LoginView,
    calls: Seq<Call>,
    j: int,
)
    requires
        0 <= j < calls.len(),
        login.state == State::Idle,
        login.step_at(calls, j) is Finished,
    ensures
        calls[j] == (Call::Handle { response: ResponseView::Success }),
        exists|b: int, i: int|
            {
                &&& 0 <= b < i < j
                &&& #[trigger] calls[b] is Begin
                &&& #[trigger] login.step_at(calls, i) == StepView::Send(
                    RequestView::StartSession { cmd: login.command, env: Seq::empty() },
                )
                &&& undisturbed(calls, b + 1, j)
            },
{
    let (b, i) = starting_was_authenticated(login, calls, j);
    command_is_fixed(login, calls.take(i));
    assert(calls[b] is Begin);
    assert(login.step_at(calls, i) == StepView::Send(
        RequestView::StartSession { cmd: login.command, env: Seq::empty() },
    ));
}

/// What an error of greetd says never reaches the user, nor changes what the
/// login does.
pub proof fn error_details_are_kept_private(
    login: LoginView,
    error_type: ErrorType,
    description: Seq<char>,
    other_type: ErrorType,
    other_description: Seq<char>,
)
    ensures
        login.handled(ResponseView::Error { error_type, description }) == login.handled(
            ResponseView::Error { error_type: other_type, description: other_description },
        ),
{
}

/// An error gives the attempt up: the password is gone, greetd is asked to cancel
/// and, once it confirms, the form is reset with a message that tells a failed
/// launch from a failed login.
pub proof fn failure_cancels_before_retry(
    login: LoginView,
    error_type: ErrorType,
    description: Seq<char>,
)
    requires
        login.state != State::Cancelling,
    ensures
        ({
            let (failed, step) = login.handled(ResponseView::Error { error_type, description });
            let message = if login.state == State::Starting {
                "Unable to start the desktop. Please try again."@
            } else {
                "Login failed. Check your username and password."@
            };
            &&& failed == LoginView {
                state: State::Cancelling,
                password: None,
                failure: message,
                cancel_retried: false,
                command: login.command,
            }
            &&& failed.password is None
            &&& step == StepView::Send(RequestView::CancelSession)
            &&& failed.handled(ResponseView::Success).1 == StepView::Reset { message }
        }),
{
}

/// A confirmed cancellation leaves an idle login that can begin anew, and shows
/// the message it was given, also where the first request for it failed.
pub proof fn confirmed_cancellation_resets(
    login: LoginView,
    message: Seq<char>,
    error_type: ErrorType,
    description: Seq<char>,
)
    ensures
        ({
            let cancelled = login.cancelled(message);
            let retried = cancelled.handled(ResponseView::Error { error_type, description });
            let idle = LoginView::idle(login.command);
            &&& cancelled.handled(ResponseView::Success) == (idle, StepView::Reset { message })
            &&& retried.1 == StepView::Send(RequestView::CancelSession)
            &&& retried.0.handled(ResponseView::Success) == (
                LoginView { cancel_retried: true, ..idle },
                StepView::Reset { message },
            )
        }),
{
}

/// As long as greetd does not confirm a cancellation, the login stays cancelling,
/// holds no password and never resets the form. Its only step besides stopping is
/// one further request to cancel, after the first error.
pub proof fn unconfirmed_cancellation_allows_no_retry(
    login: LoginView,
    calls: Seq<Call>,
    i: int,
)
    requires
        login.state == State::Cancelling,
        login.password is None,
        0 <= i < calls.len(),
        forall|k: int|
            0 <= k <= i ==> {
                &&& #[trigger] calls[k] is Handle
                &&& !(calls[k]->response is Success)
            },
    ensures
        login.after(calls.take(i + 1)).state == State::Cancelling,
        login.after(calls.take(i + 1)).password is None,
        login.step_at(calls, i) == if !login.cancel_retried && calls[i]->response is Error && (
        forall|k: int| 0 <= k < i ==> !(#[trigger] calls[k]->response is Error)) {
            StepView::Send(RequestView::CancelSession)
        } else {
            StepView::Fatal
        },
{
    cancelling_course(login, calls, i);
    cancelling_course(login, calls, i + 1);
}

proof fn cancelling_course(login: LoginView, calls: Seq<Call>, n: int)
    requires
        login.state == State::Cancelling,
        login.password is None,
        0 <= n <= calls.len(),
        forall|k: int|
            0 <= k < n ==> {
                &&& #[trigger] calls[k] is Handle
                &&& !(calls[k]->response is Success)
            },
    ensures
        login.after(calls.take(n)).state == State::Cancelling,
        login.after(calls.take(n)).password is None,
        login.after(calls.take(n)).cancel_retried <==> login.cancel_retried || exists|k: int|
            0 <= k < n && #[trigger] calls[k]->response is Error,
    decreases n,
{
    if n == 0 {
        assert(calls.take(0).len() == 0);
    } else {
        cancelling_course(login, calls, n - 1);
        after_one_more(login, calls, n - 1);
        assert(calls[n - 1] is Handle);
    }
}

/// A fresh login holds the command and nothing else.
pub proof fn fresh_login_holds_only_the_command(command: Seq<Seq<char>>)
    ensures
        LoginView::idle(command).state == State::Idle,
        LoginView::idle(command).password is None,
        LoginView::idle(command).command == command,
        LoginView::idle(command).failure.len() == 0,
        !LoginView::idle(command).cancel_retried,
{
}

/// Whatever stood before, an attempt that was begun is at its questions and holds
/// the password that it was given. Nothing else changes.
pub proof fn beginning_takes_the_password(login: LoginView, password: Seq<char>)
    ensures
        ({
            let begun = login.begun(password);
            &&& begun.state == State::Authenticating
            &&& begun.password == Some(password)
            &&& begun.command == login.command
            &&& begun.failure == login.failure
            &&& begun.cancel_retried == login.cancel_retried
        }),
{
}

/// Whatever stood before, an attempt that was given up waits for greetd to confirm
/// that for the first time, holds no password, and keeps the message for then.
pub proof fn cancelling_drops_the_password(login: LoginView, message: Seq<char>)
    ensures
        ({
            let cancelled = login.cancelled(message);
            &&& cancelled.state == State::Cancelling
            &&& cancelled.password is None
            &&& cancelled.command == login.command
            &&& cancelled.failure == message
            &&& !cancelled.cancel_retried
        }),
{
}

/// A success of greetd confirms a cancellation that is under way: the form is
/// reset with the message that was kept, and the login is idle.
pub proof fn success_confirms_a_cancellation(login: LoginView)
    requires
        login.state == State::Cancelling,
    ensures
        ({
            let (next, step) = login.handled(ResponseView::Success);
            &&& step == StepView::Reset { message: login.failure }
            &&& next.state == State::Idle
            &&& next.failure.len() == 0
            &&& next.password == login.password
            &&& next.command == login.command
            &&& next.cancel_retried == login.cancel_retried
        }),
{
}

/// The first error while cancelling repeats the request to cancel. A later one,
/// and a challenge at any time, stops the login and changes nothing.
pub proof fn cancellation_is_repeated_once(login: LoginView, response: ResponseView)
    requires
        login.state == State::Cancelling,
        !(response is Success),
    ensures
        ({
            let (next, step) = login.handled(response);
            let repeated = response is Error && !login.cancel_retried;
            &&& repeated ==> step == StepView::Send(RequestView::CancelSession)
            &&& !repeated ==> step == StepView::Fatal
            &&& next.cancel_retried == (login.cancel_retried || response is Error)
            &&& next.state == State::Cancelling
            &&& next.password == login.password
            &&& next.command == login.command
            &&& next.failure == login.failure
        }),
{
}

/// A success while PAM was asking asks for the session, and a success after that
/// ends the login. Both leave no password behind.
pub proof fn success_moves_the_login_on(login: LoginView)
    requires
        login.state == State::Authenticating || login.state == State::Starting,
    ensures
        ({
            let (next, step) = login.handled(ResponseView::Success);
            &&& login.state == State::Authenticating ==> {
                &&& next.state == State::Starting
                &&& step matches StepView::Send(RequestView::StartSession { cmd, env })
                &&& cmd == login.command
                &&& env.len() == 0
            }
            &&& login.state == State::Starting ==> {
                &&& next.state == State::Idle
                &&& step == StepView::Finished
            }
            &&& next.password is None
            &&& next.command == login.command
            &&& next.failure == login.failure
            &&& next.cancel_retried == login.cancel_retried
        }),
{
}

/// A challenge while PAM is asking is answered with the password where it asks for
/// it and the password is there, and the password is then gone. Any other one goes
/// to the user word by word and changes nothing.
pub proof fn challenge_reaches_the_password_or_the_user(
    login: LoginView,
    message_type: AuthMessageType,
    message: Seq<char>,
)
    requires
        login.state == State::Authenticating,
    ensures
        ({
            let (next, step) = login.handled(
                ResponseView::AuthMessage {
                    auth_message_type: message_type,
                    auth_message: message,
                },
            );
            let released = message_type == AuthMessageType::Secret && login.password is Some
                && asks_for_password(message);
            &&& released ==> step == StepView::Send(
                RequestView::PostAuthMessageResponse { response: login.password },
            )
            &&& message_type == AuthMessageType::Secret && !released ==> step
                == StepView::Prompt { text: message, secret: true }
            &&& message_type == AuthMessageType::Visible ==> step == StepView::Prompt {
                text: message,
                secret: false,
            }
            &&& message_type == AuthMessageType::Info || message_type == AuthMessageType::Error
                ==> step == StepView::Notice { text: message }
            &&& next.password == if released {
                None
            } else {
                login.password
            }
            &&& next.state == State::Authenticating
            &&& next.command == login.command
            &&& next.failure == login.failure
            &&& next.cancel_retried == login.cancel_retried
        }),
{
}

/// An error outside of a cancellation, and a response that does not fit where the
/// login stands, give the attempt up: the password is gone, greetd is asked to
/// cancel, and the message for the user tells which of the three it was.
pub proof fn anything_else_gives_up(login: LoginView, response: ResponseView)
    requires
        login.state != State::Cancelling,
        response is Success ==> login.state == State::Idle,
        response is AuthMessage ==> login.state != State::Authenticating,
    ensures
        ({
            let (next, step) = login.handled(response);
            &&& step == StepView::Send(RequestView::CancelSession)
            &&& next.state == State::Cancelling
            &&& next.password is None
            &&& next.command == login.command
            &&& !next.cancel_retried
            &&& response is Error && login.state == State::Starting ==> next.failure
                == "Unable to start the desktop. Please try again."@
            &&& response is Error && login.state != State::Starting ==> next.failure
                == "Login failed. Check your username and password."@
            &&& !(response is Error) ==> next.failure
                == "Unexpected login response. Please try again."@
        }),
{
}

/// A step is what it reads: each part of it shows in its view.
pub proof fn step_shows_its_parts(step: Step)
    ensures
        match step {
            Step::Send(request) => step@ == StepView::Send(request@),
            Step::Prompt { text, secret } => step@ == (StepView::Prompt { text: text@, secret }),
            Step::Notice { text } => step@ == (StepView::Notice { text: text@ }),
            Step::Reset { message } => step@ == (StepView::Reset { message: message@ }),
            Step::Finished => step@ == StepView::Finished,
            Step::Fatal => step@ == StepView::Fatal,
        },
{
}

} // verus!
