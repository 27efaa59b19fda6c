//! What each change of the form leaves, field by field, whatever form it meets.
use vstd::prelude::*;

use crate::form::{
    mask_of, Button, ButtonView, Entry, EntryView, Focus, Form, FormView, InputPurpose, Reaction,
    ReactionView,
};
use crate::form_laws::Happening;
use crate::login::{LoginView, State, StepView};
use crate::protocol::{RequestView, ResponseView};
use crate::text::trimmed;
use crate::worker::{EventView, PowerAction, WorkView};

verus! {

/// A mask is as long as the text that it stands for, and is all bullets.
pub proof fn mask_is_bullets_alone(text: Seq<char>)
    ensures
        mask_of(text).len() == text.len(),
        forall|i: int| 0 <= i < text.len() ==> #[trigger] mask_of(text)[i] == '•',
{
}

/// A greeter starts with an idle login for the session executable alone, and with an
/// empty form that can be filled in.
pub proof fn first_form_is_empty(demo: bool, session: Seq<char>)
    ensures
        FormView::initial(demo, session) == (FormView {
            login: LoginView {
                state: State::Idle,
                password: None,
                command: seq![session],
                failure: Seq::empty(),
                cancel_retried: false,
            },
            demo,
            busy: false,
            pending_mask: false,
            connected: true,
            challenge: false,
            notice: false,
            power_confirm: None,
            username: EntryView {
                text: Seq::empty(),
                visibility: true,
                purpose: InputPurpose::FreeForm,
                sensitive: true,
            },
            password: EntryView {
                text: Seq::empty(),
                visibility: false,
                purpose: InputPurpose::Password,
                sensitive: true,
            },
            password_label: "Password:"@,
            message: Seq::empty(),
            submit: ButtonView { label: "Log in"@, sensitive: true, visible: false },
            cancel: ButtonView { label: "Cancel"@, sensitive: false, visible: false },
            reboot: ButtonView { label: "Reboot"@, sensitive: true, visible: true },
            shutdown: ButtonView { label: "Shutdown"@, sensitive: true, visible: true },
        }),
{
}

/// Clearing empties the entry for the password, ends its mask, and changes nothing
/// else.
pub proof fn clearing_empties_the_entry(form: FormView)
    ensures
        form.cleared() == (FormView {
            password: EntryView { text: Seq::empty(), ..form.password },
            pending_mask: false,
            ..form
        }),
{
}

/// A form that waits has no control that can be used. Nothing else changes.
pub proof fn waiting_locks_every_control(form: FormView)
    ensures
        form.with_busy(true) == (FormView {
            busy: true,
            username: EntryView { sensitive: false, ..form.username },
            password: EntryView { sensitive: false, ..form.password },
            submit: ButtonView { sensitive: false, visible: form.notice, ..form.submit },
            cancel: ButtonView { sensitive: false, visible: form.challenge, ..form.cancel },
            reboot: ButtonView { sensitive: false, ..form.reboot },
            shutdown: ButtonView { sensitive: false, ..form.shutdown },
            ..form
        }),
{
}

/// A form that does not wait lets itself be filled in as far as there is a connection
/// and PAM asks for it, and its power controls be pressed. A mask is gone from it, and
/// nothing else changes.
pub proof fn resting_frees_the_controls(form: FormView)
    ensures
        form.with_busy(false) == (FormView {
            pending_mask: false,
            busy: false,
            username: EntryView { sensitive: form.connected && !form.challenge, ..form.username },
            password: EntryView { text: if form.pending_mask {
                    Seq::empty()
                } else {
                    form.password.text
                }, sensitive: form.connected && !form.notice, ..form.password },
            submit: ButtonView { sensitive: form.connected, visible: form.notice, ..form.submit },
            cancel: ButtonView {
                sensitive: form.connected && form.challenge,
                visible: form.challenge,
                ..form.cancel
            },
            reboot: ButtonView { sensitive: true, ..form.reboot },
            shutdown: ButtonView { sensitive: true, ..form.shutdown },
            ..form
        }),
{
}

/// Taking the answer out of the form leaves bullets in a hidden entry, one for each
/// character, and nothing in an open one. The form waits, and nothing else changes.
pub proof fn taking_the_answer_leaves_bullets(form: FormView)
    ensures
        form.answer_taken() == (FormView {
            pending_mask: !form.password.visibility && form.password.text.len() > 0,
            busy: true,
            username: EntryView { sensitive: false, ..form.username },
            password: EntryView { text: if form.password.visibility {
                    Seq::empty()
                } else {
                    Seq::new(form.password.text.len(), |i: int| '•')
                }, sensitive: false, ..form.password },
            submit: ButtonView { sensitive: false, visible: form.notice, ..form.submit },
            cancel: ButtonView { sensitive: false, visible: form.challenge, ..form.cancel },
            reboot: ButtonView { sensitive: false, ..form.reboot },
            shutdown: ButtonView { sensitive: false, ..form.shutdown },
            ..form
        }),
{
    assert(form.password.text.len() == 0 ==> Seq::new(
        form.password.text.len(),
        |i: int| '•',
    ) =~= Seq::<char>::empty());
}

/// Sending a request makes the form wait and hands out just that request. A request to
/// cancel also empties the entry for the password. Nothing else changes.
pub proof fn sending_hands_out_the_request(form: FormView, request: RequestView)
    ensures
        form.applied(StepView::Send(request)).0 == (FormView {
            pending_mask: form.pending_mask && !(request is CancelSession),
            busy: true,
            username: EntryView { sensitive: false, ..form.username },
            password: EntryView { text: if request is CancelSession {
                    Seq::empty()
                } else {
                    form.password.text
                }, sensitive: false, ..form.password },
            submit: ButtonView { sensitive: false, visible: form.notice, ..form.submit },
            cancel: ButtonView { sensitive: false, visible: form.challenge, ..form.cancel },
            reboot: ButtonView { sensitive: false, ..form.reboot },
            shutdown: ButtonView { sensitive: false, ..form.shutdown },
            ..form
        }),
        form.applied(StepView::Send(request)).1 == (ReactionView {
            focus: Some(Focus::Nowhere),
            work: Some(WorkView::Auth(request)),
            quit: false,
        }),
        form.sent(request) == form.applied(StepView::Send(request)).0,
{
}

/// A question of PAM is put to the user as it reads, hidden just where it is a secret,
/// in an empty entry that has the focus. Nothing else changes.
pub proof fn question_is_put_to_the_user(form: FormView, text: Seq<char>, secret: bool)
    ensures
        form.applied(StepView::Prompt { text, secret }).0 == (FormView {
            pending_mask: false,
            challenge: true,
            notice: false,
            password_label: text,
            message: Seq::empty(),
            busy: false,
            username: EntryView { sensitive: false, ..form.username },
            password: EntryView { text: Seq::empty(), visibility: !secret, purpose: if secret {
                    InputPurpose::Password
                } else {
                    InputPurpose::FreeForm
                }, sensitive: form.connected, ..form.password },
            submit: ButtonView {
                label: "Continue"@,
                sensitive: form.connected,
                visible: false,
                ..form.submit
            },
            cancel: ButtonView { sensitive: form.connected, visible: true, ..form.cancel },
            reboot: ButtonView { sensitive: true, ..form.reboot },
            shutdown: ButtonView { sensitive: true, ..form.shutdown },
            ..form
        }),
        form.applied(StepView::Prompt { text, secret }).1 == (ReactionView {
            focus: Some(Focus::Password),
            work: None,
            quit: false,
        }),
{
}

/// A text of PAM is shown as it reads and waits to be acknowledged. Nothing else
/// changes.
pub proof fn text_is_shown_to_the_user(form: FormView, text: Seq<char>)
    ensures
        form.applied(StepView::Notice { text }).0 == (FormView {
            pending_mask: false,
            challenge: true,
            notice: true,
            message: text,
            busy: false,
            username: EntryView { sensitive: false, ..form.username },
            password: EntryView { text: Seq::empty(), sensitive: false, ..form.password },
            submit: ButtonView {
                label: "Continue"@,
                sensitive: form.connected,
                visible: true,
                ..form.submit
            },
            cancel: ButtonView { sensitive: form.connected, visible: true, ..form.cancel },
            reboot: ButtonView { sensitive: true, ..form.reboot },
            shutdown: ButtonView { sensitive: true, ..form.shutdown },
            ..form
        }),
        form.applied(StepView::Notice { text }).1 == (ReactionView {
            focus: Some(Focus::Submit),
            work: None,
            quit: false,
        }),
{
}

/// A reset brings back the form for a new attempt, with the message and with the
/// username that was typed.
pub proof fn reset_brings_back_the_form(form: FormView, message: Seq<char>)
    ensures
        form.renewed(message) == (FormView {
            pending_mask: false,
            challenge: false,
            notice: false,
            password_label: "Password:"@,
            message: message,
            busy: false,
            username: EntryView { sensitive: form.connected, ..form.username },
            password: EntryView {
                text: Seq::empty(),
                visibility: false,
                purpose: InputPurpose::Password,
                sensitive: form.connected,
                ..form.password
            },
            submit: ButtonView {
                label: "Log in"@,
                sensitive: form.connected,
                visible: false,
                ..form.submit
            },
            cancel: ButtonView { sensitive: false, visible: false, ..form.cancel },
            reboot: ButtonView { sensitive: true, ..form.reboot },
            shutdown: ButtonView { sensitive: true, ..form.shutdown },
            ..form
        }),
        form.applied(StepView::Reset { message }).0 == form.renewed(message),
        form.applied(StepView::Reset { message }).1 == (ReactionView {
            focus: Some(Focus::Username),
            work: None,
            quit: false,
        }),
{
}

/// A finished login leaves the greeter and changes nothing more, but in a demo it
/// brings back the form and says that no session was started.
pub proof fn finished_login_leaves_or_comes_back(form: FormView)
    ensures
        !form.demo ==> form.applied(StepView::Finished) == (
            form,
            ReactionView { focus: None, work: None, quit: true },
        ),
        form.demo ==> form.applied(StepView::Finished).0 == (FormView {
            pending_mask: false,
            challenge: false,
            notice: false,
            password_label: "Password:"@,
            message: "Demo complete — no session was started."@,
            busy: false,
            username: EntryView { sensitive: form.connected, ..form.username },
            password: EntryView {
                text: Seq::empty(),
                visibility: false,
                purpose: InputPurpose::Password,
                sensitive: form.connected,
                ..form.password
            },
            submit: ButtonView {
                label: "Log in"@,
                sensitive: form.connected,
                visible: false,
                ..form.submit
            },
            cancel: ButtonView { sensitive: false, visible: false, ..form.cancel },
            reboot: ButtonView { sensitive: true, ..form.reboot },
            shutdown: ButtonView { sensitive: true, ..form.shutdown },
            ..form
        }),
        form.demo ==> form.applied(StepView::Finished).1 == (ReactionView {
            focus: Some(Focus::Username),
            work: None,
            quit: false,
        }),
{
}

/// Without greetd the login is given up, no password is left anywhere, and nothing but
/// the power controls can be used.
pub proof fn losing_greetd_leaves_the_power_controls(form: FormView)
    ensures
        form.cut_off() == (FormView {
            login: LoginView {
                state: State::Cancelling,
                password: None,
                failure: Seq::empty(),
                cancel_retried: false,
                ..form.login
            },
            connected: false,
            message: "Login service unavailable. Use another console to recover."@,
            pending_mask: false,
            busy: true,
            username: EntryView { sensitive: false, ..form.username },
            password: EntryView { text: Seq::empty(), sensitive: false, ..form.password },
            submit: ButtonView { sensitive: false, visible: form.notice, ..form.submit },
            cancel: ButtonView { sensitive: false, visible: form.challenge, ..form.cancel },
            reboot: ButtonView { sensitive: true, ..form.reboot },
            shutdown: ButtonView { sensitive: true, ..form.shutdown },
            ..form
        }),
        form.applied(StepView::Fatal) == (
            form.cut_off(),
            ReactionView { focus: Some(Focus::Nowhere), work: None, quit: false },
        ),
        form.received(EventView::Auth(Err(()))) == (
            form.cut_off(),
            ReactionView { focus: Some(Focus::Nowhere), work: None, quit: false },
        ),
{
}

/// A form that waits, shows a mask or has no connection is left as it is by a
/// submission.
pub proof fn locked_form_ignores_a_submission(form: FormView)
    requires
        form.busy || form.pending_mask || !form.connected,
    ensures
        form.submitted() == (form, ReactionView { focus: None, work: None, quit: false }),
{
}

/// In a demo or not, a text of PAM is acknowledged with nothing. The form waits.
pub proof fn submission_acknowledges_a_text(form: FormView)
    requires
        !form.busy,
        !form.pending_mask,
        form.connected,
        form.notice,
    ensures
        form.submitted().0 == (FormView {
            power_confirm: None,
            busy: true,
            username: EntryView { sensitive: false, ..form.username },
            password: EntryView { sensitive: false, ..form.password },
            submit: ButtonView { sensitive: false, visible: form.notice, ..form.submit },
            cancel: ButtonView { sensitive: false, visible: form.challenge, ..form.cancel },
            reboot: ButtonView { sensitive: false, ..form.reboot },
            shutdown: ButtonView { sensitive: false, ..form.shutdown },
            ..form
        }),
        form.submitted().1 == (ReactionView {
            focus: Some(Focus::Nowhere),
            work: Some(WorkView::Auth(RequestView::PostAuthMessageResponse { response: None })),
            quit: false,
        }),
{
}

/// In a demo or not, a question of PAM is answered with exactly what was typed. The
/// form waits, with bullets in a hidden entry.
pub proof fn submission_answers_a_question(form: FormView)
    requires
        !form.busy,
        !form.pending_mask,
        form.connected,
        form.challenge,
        !form.notice,
    ensures
        form.submitted().0 == (FormView {
            power_confirm: None,
            pending_mask: !form.password.visibility && form.password.text.len() > 0,
            busy: true,
            username: EntryView { sensitive: false, ..form.username },
            password: EntryView { text: if form.password.visibility {
                    Seq::empty()
                } else {
                    Seq::new(form.password.text.len(), |i: int| '•')
                }, sensitive: false, ..form.password },
            submit: ButtonView { sensitive: false, visible: form.notice, ..form.submit },
            cancel: ButtonView { sensitive: false, visible: form.challenge, ..form.cancel },
            reboot: ButtonView { sensitive: false, ..form.reboot },
            shutdown: ButtonView { sensitive: false, ..form.shutdown },
            ..form
        }),
        form.submitted().1 == (ReactionView {
            focus: Some(Focus::Nowhere),
            work: Some(
                WorkView::Auth(
                    RequestView::PostAuthMessageResponse { response: Some(form.password.text) },
                ),
            ),
            quit: false,
        }),
{
    assert(form.password.text.len() == 0 ==> Seq::new(
        form.password.text.len(),
        |i: int| '•',
    ) =~= Seq::<char>::empty());
}

/// In a demo or not, an attempt is begun with the username without the white space
/// around it, and with exactly the password that was typed. Without a username only
/// the focus moves.
pub proof fn submission_begins_an_attempt(form: FormView)
    requires
        !form.busy,
        !form.pending_mask,
        form.connected,
        !form.challenge,
        !form.notice,
    ensures
        trimmed(form.username.text).len() == 0 ==> form.submitted() == (FormView {
                power_confirm: None,
                ..form
            }, ReactionView { focus: Some(Focus::Username), work: None, quit: false }),
        trimmed(form.username.text).len() > 0 ==> form.submitted().0 == (FormView {
            power_confirm: None,
            message: "Logging in…"@,
            login: LoginView {
                state: State::Authenticating,
                password: Some(form.password.text),
                ..form.login
            },
            pending_mask: !form.password.visibility && form.password.text.len() > 0,
            busy: true,
            username: EntryView { sensitive: false, ..form.username },
            password: EntryView { text: if form.password.visibility {
                    Seq::empty()
                } else {
                    Seq::new(form.password.text.len(), |i: int| '•')
                }, sensitive: false, ..form.password },
            submit: ButtonView { sensitive: false, visible: form.notice, ..form.submit },
            cancel: ButtonView { sensitive: false, visible: form.challenge, ..form.cancel },
            reboot: ButtonView { sensitive: false, ..form.reboot },
            shutdown: ButtonView { sensitive: false, ..form.shutdown },
            ..form
        }),
        trimmed(form.username.text).len() > 0 ==> form.submitted().1 == (ReactionView {
            focus: Some(Focus::Nowhere),
            work: Some(
                WorkView::Auth(
                    RequestView::CreateSession { username: trimmed(form.username.text) },
                ),
            ),
            quit: false,
        }),
{
    assert(form.password.text.len() == 0 ==> Seq::new(
        form.password.text.len(),
        |i: int| '•',
    ) =~= Seq::<char>::empty());
}

/// A power control that was not the last one pressed asks for a second press by name
/// and does nothing more. Pressed again it hands out its own action, and the form
/// waits.
pub proof fn power_control_asks_then_acts(form: FormView, action: PowerAction)
    ensures
        form.power_confirm != Some(action) ==> form.power_pressed(action) == (FormView {
            power_confirm: Some(action),
            message: match action {
                PowerAction::Reboot => "Press Reboot again to confirm."@,
                PowerAction::Poweroff => "Press Shutdown again to confirm."@,
            },
            ..form
        }, ReactionView { focus: None, work: None, quit: false }),
        form.power_confirm == Some(action) ==> form.power_pressed(action).0 == (FormView {
            power_confirm: None,
            busy: true,
            username: EntryView { sensitive: false, ..form.username },
            password: EntryView { sensitive: false, ..form.password },
            submit: ButtonView { sensitive: false, visible: form.notice, ..form.submit },
            cancel: ButtonView { sensitive: false, visible: form.challenge, ..form.cancel },
            reboot: ButtonView { sensitive: false, ..form.reboot },
            shutdown: ButtonView { sensitive: false, ..form.shutdown },
            ..form
        }),
        form.power_confirm == Some(action) ==> form.power_pressed(action).1 == (ReactionView {
            focus: Some(Focus::Nowhere),
            work: Some(WorkView::Power(action)),
            quit: false,
        }),
{
}

/// Giving up, wherever the login stands, leaves a login that waits for the confirmation
/// and holds no password and no message, an empty entry, and a form that waits while
/// greetd is asked to cancel. Nothing else changes.
pub proof fn giving_up_cancels_the_attempt(form: FormView)
    ensures
        form.cancel_pressed().0 == (FormView {
            login: LoginView {
                state: State::Cancelling,
                password: None,
                failure: Seq::empty(),
                cancel_retried: false,
                ..form.login
            },
            pending_mask: false,
            busy: true,
            username: EntryView { sensitive: false, ..form.username },
            password: EntryView { text: Seq::empty(), sensitive: false, ..form.password },
            submit: ButtonView { sensitive: false, visible: form.notice, ..form.submit },
            cancel: ButtonView { sensitive: false, visible: form.challenge, ..form.cancel },
            reboot: ButtonView { sensitive: false, ..form.reboot },
            shutdown: ButtonView { sensitive: false, ..form.shutdown },
            ..form
        }),
        form.cancel_pressed().1 == (ReactionView {
            focus: Some(Focus::Nowhere),
            work: Some(WorkView::Auth(RequestView::CancelSession)),
            quit: false,
        }),
{
}

/// A report on a power action ends the wait and is shown: as a simulation in a demo,
/// else as accepted or not. Nothing else changes.
pub proof fn power_report_is_shown(form: FormView, accepted: bool)
    ensures
        form.received(EventView::Power(accepted)).0 == (FormView {
            pending_mask: false,
            message: if form.demo {
                "Demo only — no power action was performed."@
            } else if accepted {
                "Power action requested."@
            } else {
                "Power action was denied or failed."@
            },
            busy: false,
            username: EntryView { sensitive: form.connected && !form.challenge, ..form.username },
            password: EntryView { text: if form.pending_mask {
                    Seq::empty()
                } else {
                    form.password.text
                }, sensitive: form.connected && !form.notice, ..form.password },
            submit: ButtonView { sensitive: form.connected, visible: form.notice, ..form.submit },
            cancel: ButtonView {
                sensitive: form.connected && form.challenge,
                visible: form.challenge,
                ..form.cancel
            },
            reboot: ButtonView { sensitive: true, ..form.reboot },
            shutdown: ButtonView { sensitive: true, ..form.shutdown },
            ..form
        }),
        form.received(EventView::Power(accepted)).1 == (ReactionView {
            focus: None,
            work: None,
            quit: false,
        }),
{
}

/// A response of greetd goes to the login, and the step that comes of it to the form.
pub proof fn response_goes_through_the_login(form: FormView, response: ResponseView)
    ensures
        form.received(EventView::Auth(Ok(response))) == (FormView {
            login: form.login.handled(response).0,
            ..form
        }).applied(form.login.handled(response).1),
{
}

/// What is left to do is what each reaction reads.
pub proof fn reactions_say_what_is_left(focus: Focus, work: WorkView)
    ensures
        ReactionView::nothing() == (ReactionView { focus: None, work: None, quit: false }),
        ReactionView::focused(focus) == (ReactionView {
            focus: Some(focus),
            work: None,
            quit: false,
        }),
        ReactionView::working(work) == (ReactionView {
            focus: Some(Focus::Nowhere),
            work: Some(work),
            quit: false,
        }),
{
}

/// Giving up and the success of greetd that confirms it come back to the form for
/// a new attempt: no work is left, the focus is on the username, and no message is
/// shown.
pub proof fn given_up_attempt_comes_back_to_the_form(form: FormView)
    requires
        form.connected,
    ensures
        ({
            let given_up = form.cancel_pressed().0;
            let (next, reaction) = given_up.received(EventView::Auth(Ok(ResponseView::Success)));
            &&& next.is_ready()
            &&& next.message.len() == 0
            &&& next.username.text == form.username.text
            &&& !next.cancel.visible
            &&& next.submit.label == "Log in"@
            &&& reaction.work is None
            &&& reaction.focus == Some(Focus::Username)
            &&& !reaction.quit
        }),
{
    giving_up_cancels_the_attempt(form);
    let given_up = form.cancel_pressed().0;
    let login = given_up.login.handled(ResponseView::Success).0;
    response_goes_through_the_login(given_up, ResponseView::Success);
    reset_brings_back_the_form(FormView { login, ..given_up }, Seq::empty());
}

impl FormView {
    /// Whether the login has no attempt under way that could lead to a session.
    spec fn has_no_attempt(self) -> bool {
        self.login.state == State::Idle || self.login.state == State::Cancelling
    }
}

/// Whether the work begins an attempt.
pub open spec fn begins_attempt(reaction: ReactionView) -> bool {
    reaction.work matches Some(WorkView::Auth(RequestView::CreateSession { .. }))
}

/// Whether the work asks for a session.
pub open spec fn asks_for_session(reaction: ReactionView) -> bool {
    reaction.work matches Some(WorkView::Auth(RequestView::StartSession { .. }))
}

proof fn step_keeps_the_state(form: FormView, step: StepView)
    ensures
        step !is Fatal ==> form.applied(step).0.login == form.login,
        step is Fatal ==> form.applied(step).0.login.state == State::Cancelling,
        asks_for_session(form.applied(step).1) ==> step matches StepView::Send(
            RequestView::StartSession { .. },
        ),
{
}

proof fn no_attempt_without_beginning(form: FormView, happening: Happening)
    requires
        form.has_no_attempt(),
        !begins_attempt(form.happened(happening).1),
    ensures
        form.happened(happening).0.has_no_attempt(),
        !asks_for_session(form.happened(happening).1),
{
    match happening {
        Happening::Submit => {
            if form.busy || form.pending_mask || !form.connected {
                locked_form_ignores_a_submission(form);
            } else if form.notice {
                submission_acknowledges_a_text(form);
            } else if form.challenge {
                submission_answers_a_question(form);
            } else {
                submission_begins_an_attempt(form);
            }
        },
        Happening::Cancel => giving_up_cancels_the_attempt(form),
        Happening::Power { action } => power_control_asks_then_acts(form, action),
        Happening::Receive { event: EventView::Auth(Ok(response)) } => {
            let (login, step) = form.login.handled(response);
            step_keeps_the_state(FormView { login, ..form }, step);
        },
        Happening::Receive { event: EventView::Auth(Err(_)) } => {
            losing_greetd_leaves_the_power_controls(form);
        },
        Happening::Receive { event: EventView::Power(accepted) } => {
            power_report_is_shown(form, accepted);
        },
        Happening::Disconnect => losing_greetd_leaves_the_power_controls(form),
        _ => {},
    }
}

/// After an attempt was given up no session is asked for until another attempt is
/// begun, whatever happens meanwhile.
pub proof fn no_session_between_giving_up_and_a_new_attempt(
    form: FormView,
    course: Seq<Happening>,
    i: int,
    j: int,
)
    requires
        0 <= i < j < course.len(),
        course[i] is Cancel,
        forall|k: int| i < k < j ==> !begins_attempt(#[trigger] form.reaction_at(course, k)),
    ensures
        !asks_for_session(form.reaction_at(course, j)),
{
    still_no_attempt(form, course, i, j);
    let before = form.after(course.take(j));
    if !begins_attempt(before.happened(course[j]).1) {
        no_attempt_without_beginning(before, course[j]);
    }
}

proof fn still_no_attempt(form: FormView, course: Seq<Happening>, i: int, n: int)
    requires
        0 <= i < n <= course.len(),
        course[i] is Cancel,
        forall|k: int| i < k < n ==> !begins_attempt(#[trigger] form.reaction_at(course, k)),
    ensures
        form.after(course.take(n)).has_no_attempt(),
    decreases n,
{
    assert(course.take(n).drop_last() =~= course.take(n - 1));
    let before = form.after(course.take(n - 1));
    if n == i + 1 {
        giving_up_cancels_the_attempt(before);
    } else {
        still_no_attempt(form, course, i, n - 1);
        assert(!begins_attempt(form.reaction_at(course, n - 1)));
        no_attempt_without_beginning(before, course[n - 1]);
    }
}

/// The form and what is left to do are what they read: each part shows in the view.
pub proof fn form_shows_its_parts(form: Form, entry: Entry, button: Button, reaction: Reaction)
    ensures
        form@.login == form.login@,
        form@.demo == form.demo,
        form@.busy == form.busy,
        form@.pending_mask == form.pending_mask,
        form@.connected == form.connected,
        form@.challenge == form.challenge,
        form@.notice == form.notice,
        form@.power_confirm == form.power_confirm,
        form@.username == form.username@,
        form@.password == form.password@,
        form@.password_label == form.password_label@,
        form@.message == form.message@,
        form@.submit == form.submit@,
        form@.cancel == form.cancel@,
        form@.reboot == form.reboot@,
        form@.shutdown == form.shutdown@,
        entry@.text == entry.text@,
        entry@.visibility == entry.visibility,
        entry@.purpose == entry.purpose,
        entry@.sensitive == entry.sensitive,
        button@.label == button.label@,
        button@.sensitive == button.sensitive,
        button@.visible == button.visible,
        reaction@.focus == reaction.focus,
        reaction@.quit == reaction.quit,
        reaction.work is None ==> reaction@.work is None,
        reaction.work matches Some(work) ==> reaction@.work == Some(work@),
{
}

} // verus!
