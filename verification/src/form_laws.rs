//! What holds of the login form as a whole, over any course of gestures and events.
use vstd::prelude::*;

use crate::form::{
    mask_of, Focus, FormView, InputPurpose, ReactionView, LOGGING_IN,
};
use crate::login::{LoginView, State, StepView};
use crate::protocol::{ErrorType, RequestView, ResponseView};
use crate::text::trimmed;
use crate::worker::{EventView, PowerAction, WorkView};

verus! {

/// Something that happens to the form.
pub enum Happening {
    /// The user edits the entry for the username.
    EditUsername { text: Seq<char> },
    /// The user edits the entry for the password.
    EditPassword { text: Seq<char> },
    /// The user submits the form.
    Submit,
    /// The user gives the attempt up.
    Cancel,
    /// The user presses a power control.
    Power { action: PowerAction },
    /// The worker reports.
    Receive { event: EventView },
    /// The worker cannot be given work.
    Disconnect,
}

impl FormView {
    /// The controls show and allow what the state of the form says.
    pub open spec fn controls_follow_state(self) -> bool {
        let can_login = !self.busy && self.connected;
        &&& self.username.sensitive == (can_login && !self.challenge)
        &&& self.password.sensitive == (can_login && !self.notice)
        &&& self.submit.sensitive == can_login
        &&& self.submit.visible == self.notice
        &&& self.cancel.sensitive == (can_login && self.challenge)
        &&& self.cancel.visible == self.challenge
        &&& !self.busy ==> self.reboot.sensitive
        &&& self.busy && self.connected ==> !self.reboot.sensitive
        &&& self.shutdown.sensitive == self.reboot.sensitive
    }

    /// A mask in the entry for the password is all that the entry holds, and is
    /// there only while a hidden answer is under way.
    pub open spec fn mask_is_only_a_mask(self) -> bool {
        self.pending_mask ==> {
            &&& self.busy
            &&& !self.password.visibility
            &&& self.password.text.len() > 0
            &&& self.password.text == mask_of(self.password.text)
        }
    }

    /// What every form keeps.
    pub open spec fn wf(self) -> bool {
        &&& self.login.wf()
        &&& self.controls_follow_state()
        &&& self.mask_is_only_a_mask()
        &&& self.notice ==> self.challenge
    }

    /// Whether something can happen to the form as its controls are.
    pub open spec fn admits(self, happening: Happening) -> bool {
        match happening {
            Happening::EditUsername { .. } => self.username.sensitive,
            Happening::EditPassword { .. } => self.password.sensitive,
            Happening::Submit => self.password.sensitive || self.submit.sensitive
                && self.submit.visible,
            Happening::Cancel => self.cancel.sensitive && self.cancel.visible,
            Happening::Power { action: PowerAction::Reboot } => self.reboot.sensitive,
            Happening::Power { action: PowerAction::Poweroff } => self.shutdown.sensitive,
            _ => true,
        }
    }

    /// The form after something happened to it, and what is left to do.
    pub open spec fn happened(self, happening: Happening) -> (FormView, ReactionView) {
        match happening {
            Happening::EditUsername { text } => (
                FormView { username: self.username.with_text(text), ..self },
                ReactionView::nothing(),
            ),
            Happening::EditPassword { text } => (
                FormView { password: self.password.with_text(text), ..self },
                ReactionView::nothing(),
            ),
            Happening::Submit => self.submitted(),
            Happening::Cancel => self.cancel_pressed(),
            Happening::Power { action } => self.power_pressed(action),
            Happening::Receive { event } => self.received(event),
            Happening::Disconnect => (self.cut_off(), ReactionView::focused(Focus::Nowhere)),
        }
    }

    /// The form after a course of happenings.
    pub open spec fn after(self, course: Seq<Happening>) -> FormView
        decreases course.len(),
    {
        if course.len() == 0 {
            self
        } else {
            self.after(course.drop_last()).happened(course.last()).0
        }
    }

    /// What is left to do after the happening with the given index in a course.
    pub open spec fn reaction_at(self, course: Seq<Happening>, i: int) -> ReactionView {
        self.after(course.take(i)).happened(course[i]).1
    }

    /// Whether everything in a course can happen when its turn comes.
    pub open spec fn admits_course(self, course: Seq<Happening>) -> bool {
        forall|i: int|
            0 <= i < course.len() ==> self.after(course.take(i)).admits(#[trigger] course[i])
    }
}

proof fn after_one_more(form: FormView, course: Seq<Happening>, i: int)
    requires
        0 <= i < course.len(),
    ensures
        form.after(course.take(i + 1)) == form.after(course.take(i)).happened(course[i]).0,
{
    assert(course.take(i + 1).drop_last() =~= course.take(i));
}

/// The form that a greeter starts with keeps what every form keeps.
pub proof fn initial_form_is_well_formed(demo: bool, session: Seq<char>)
    ensures
        FormView::initial(demo, session).wf(),
{
}

impl FormView {
    /// What every form keeps, but for the controls and for being busy.
    spec fn sound(self) -> bool {
        &&& self.login.wf()
        &&& self.notice ==> self.challenge
        &&& self.pending_mask ==> {
            &&& !self.password.visibility
            &&& self.password.text.len() > 0
            &&& self.password.text == mask_of(self.password.text)
        }
    }
}

proof fn busy_form(form: FormView, busy: bool)
    requires
        form.sound(),
    ensures
        form.with_busy(busy).wf(),
        form.with_busy(busy).busy == busy,
        form.with_busy(busy).reboot.sensitive == !busy,
        form.with_busy(busy).connected == form.connected,
        form.with_busy(busy).power_confirm == form.power_confirm,
        form.with_busy(busy).login == form.login,
{
}

proof fn answered_form(form: FormView)
    requires
        form.sound(),
    ensures
        form.answer_taken().sound(),
        form.answer_taken().connected == form.connected,
        form.answer_taken().login == form.login,
        form.answer_taken().power_confirm == form.power_confirm,
{
    let typed = form.password.text;
    assert(mask_of(mask_of(typed)) =~= mask_of(typed));
}

proof fn cut_off_form(form: FormView)
    requires
        form.sound(),
    ensures
        form.cut_off().wf(),
        !form.cut_off().connected,
        form.cut_off().power_confirm == form.power_confirm,
{
    busy_form(
        FormView {
            login: form.login.cancelled(Seq::empty()),
            connected: false,
            message: form.cut_off().message,
            ..form.cleared()
        },
        true,
    );
}

proof fn applied_form(form: FormView, step: StepView)
    requires
        form.sound(),
        step is Finished && !form.demo ==> form.wf(),
    ensures
        form.applied(step).0.wf(),
        form.applied(step).0.connected == (form.connected && step !is Fatal),
        form.applied(step).0.power_confirm == form.power_confirm,
        step matches StepView::Send(request) ==> {
            &&& form.applied(step).1 == ReactionView::working(WorkView::Auth(request))
            &&& form.applied(step).0.busy
            &&& !form.applied(step).0.reboot.sensitive
        },
        !(step is Send) ==> form.applied(step).1.work is None,
{
    match step {
        StepView::Send(request) => {
            busy_form(form, true);
            busy_form(form.cleared(), true);
        },
        StepView::Fatal => cut_off_form(form),
        _ => {},
    }
}

proof fn submitted_form(form: FormView)
    requires
        form.wf(),
    ensures
        form.submitted().0.wf(),
        form.submitted().0.connected == form.connected,
        form.submitted().0.power_confirm == if form.accepts_submit() {
            None
        } else {
            form.power_confirm
        },
        !form.accepts_submit() ==> form.submitted() == (form, ReactionView::nothing()),
        !(form.submitted().1.work matches Some(WorkView::Power(_))),
        form.submitted().1.work is Some ==> form.submitted().0.busy
            && !form.submitted().0.reboot.sensitive,
{
    let fresh = FormView { power_confirm: None, ..form };
    answered_form(fresh);
    let begun = FormView {
        message: LOGGING_IN@,
        login: form.login.begun(form.password.text),
        ..fresh.answer_taken()
    };
    let username = trimmed(form.username.text);
    let create = RequestView::CreateSession { username };
    let answer = RequestView::PostAuthMessageResponse { response: Some(form.password.text) };
    let acknowledge = RequestView::PostAuthMessageResponse { response: None };
    applied_form(fresh, StepView::Send(acknowledge));
    applied_form(fresh.answer_taken(), StepView::Send(answer));
    applied_form(begun, StepView::Send(create));
}

proof fn received_form(form: FormView, event: EventView)
    requires
        form.wf(),
    ensures
        form.received(event).0.wf(),
        form.received(event).0.connected ==> form.connected,
        form.received(event).0.power_confirm == form.power_confirm,
        !(form.received(event).1.work matches Some(WorkView::Power(_))),
        form.received(event).1.work is Some ==> form.received(event).0.busy
            && !form.received(event).0.reboot.sensitive,
{
    match event {
        EventView::Auth(Ok(response)) => {
            let (login, step) = form.login.handled(response);
            assert(login.wf());
            applied_form(FormView { login, ..form }, step);
        },
        EventView::Auth(Err(_)) => cut_off_form(form),
        EventView::Power(_) => {},
    }
}

proof fn cancelled_form(form: FormView)
    requires
        form.sound(),
    ensures
        form.cancel_pressed().0.wf(),
        form.cancel_pressed().0.connected == form.connected,
        form.cancel_pressed().0.power_confirm == form.power_confirm,
        form.cancel_pressed().1 == ReactionView::working(
            WorkView::Auth(RequestView::CancelSession),
        ),
        form.cancel_pressed().0.busy,
        !form.cancel_pressed().0.reboot.sensitive,
{
    applied_form(
        FormView { login: form.login.cancelled(Seq::empty()), ..form },
        StepView::Send(RequestView::CancelSession),
    );
}

proof fn power_pressed_form(form: FormView, action: PowerAction)
    requires
        form.wf(),
    ensures
        form.power_pressed(action).0.wf(),
        form.power_pressed(action).0.connected == form.connected,
        form.power_pressed(action).1.work == if form.power_confirm == Some(action) {
            Some(WorkView::Power(action))
        } else {
            None
        },
        form.power_confirm == Some(action) ==> {
            &&& form.power_pressed(action).0.power_confirm is None
            &&& form.power_pressed(action).0.busy
            &&& !form.power_pressed(action).0.reboot.sensitive
        },
        form.power_confirm != Some(action) ==> form.power_pressed(action).0.power_confirm == Some(
            action,
        ),
{
    busy_form(FormView { power_confirm: None, ..form }, true);
}

/// A form keeps what every form keeps, whatever can happen to it.
pub proof fn form_stays_well_formed(form: FormView, happening: Happening)
    requires
        form.wf(),
        form.admits(happening),
    ensures
        form.happened(happening).0.wf(),
{
    match happening {
        Happening::Submit => submitted_form(form),
        Happening::Cancel => cancelled_form(form),
        Happening::Power { action } => power_pressed_form(form, action),
        Happening::Receive { event } => received_form(form, event),
        Happening::Disconnect => cut_off_form(form),
        _ => {},
    }
}

/// Every form that a greeter ever shows has controls that follow its state, and a
/// mask that is only a mask.
pub proof fn every_form_is_well_formed(form: FormView, course: Seq<Happening>, n: int)
    requires
        form.wf(),
        form.admits_course(course),
        0 <= n <= course.len(),
    ensures
        form.after(course.take(n)).wf(),
    decreases n,
{
    if n == 0 {
        assert(course.take(0).len() == 0);
    } else {
        every_form_is_well_formed(form, course, n - 1);
        after_one_more(form, course, n - 1);
        assert(form.after(course.take(n - 1)).admits(course[n - 1]));
        form_stays_well_formed(form.after(course.take(n - 1)), course[n - 1]);
    }
}

/// A form that waits, holds a mask or has no way to talk to greetd cannot be
/// submitted: nothing changes and nothing is sent.
pub proof fn waiting_form_is_not_submitted(form: FormView)
    requires
        form.busy || form.pending_mask || !form.connected,
    ensures
        form.submitted() == (form, ReactionView::nothing()),
{
}

/// Work for the worker makes the form wait. While it waits no control hands out
/// more, so that there is one piece of work at a time.
pub proof fn one_piece_of_work_at_a_time(form: FormView, waiting: bool, happening: Happening)
    requires
        form.wf(),
        form.admits(happening),
        waiting ==> form.busy && !form.reboot.sensitive,
    ensures
        ({
            let (next, reaction) = form.happened(happening);
            let reported = happening is Receive || happening is Disconnect;
            &&& waiting && !reported ==> reaction.work is None
            &&& reaction.work is Some || waiting && !reported ==> next.busy
                && !next.reboot.sensitive
        }),
{
    match happening {
        Happening::Submit => submitted_form(form),
        Happening::Cancel => cancelled_form(form),
        Happening::Power { action } => power_pressed_form(form, action),
        Happening::Receive { event } => received_form(form, event),
        _ => {},
    }
}

/// A login attempt is begun with what was typed: greetd gets the username without
/// white space around it, and the login keeps the password.
pub proof fn attempt_begins_with_what_was_typed(form: FormView)
    requires
        !form.busy,
        !form.pending_mask,
        form.connected,
        !form.challenge,
        !form.notice,
        trimmed(form.username.text).len() > 0,
    ensures
        ({
            let (next, reaction) = form.submitted();
            &&& reaction.work == Some(
                WorkView::Auth(
                    RequestView::CreateSession { username: trimmed(form.username.text) },
                ),
            )
            &&& next.login == form.login.begun(form.password.text)
        }),
{
}

/// Without a username nothing is sent, and what was typed stays.
pub proof fn attempt_needs_a_username(form: FormView)
    requires
        !form.busy,
        !form.pending_mask,
        form.connected,
        !form.challenge,
        !form.notice,
        trimmed(form.username.text).len() == 0,
    ensures
        form.submitted() == (
            FormView { power_confirm: None, ..form },
            ReactionView::focused(Focus::Username),
        ),
{
}

/// A question of PAM is answered with exactly what was typed, and a text of PAM
/// is acknowledged with nothing.
pub proof fn question_is_answered_with_what_was_typed(form: FormView)
    requires
        !form.busy,
        !form.pending_mask,
        form.connected,
        form.challenge || form.notice,
    ensures
        form.submitted().1.work == Some(
            WorkView::Auth(
                RequestView::PostAuthMessageResponse {
                    response: if form.notice {
                        None
                    } else {
                        Some(form.password.text)
                    },
                },
            ),
        ),
        form.submitted().0.login == form.login,
{
}

/// After a submission the entry for the password holds no more than a mask as
/// long as what was typed, and nothing where the entry was not hidden.
pub proof fn submitted_password_is_only_a_mask(form: FormView)
    requires
        !form.busy,
        !form.pending_mask,
        form.connected,
        !form.notice,
        form.challenge || trimmed(form.username.text).len() > 0,
    ensures
        ({
            let next = form.submitted().0;
            &&& next.password.text == if form.password.visibility {
                Seq::empty()
            } else {
                mask_of(form.password.text)
            }
            &&& next.pending_mask == (!form.password.visibility && form.password.text.len() > 0)
            &&& !next.password.sensitive
        }),
{
    assert(form.password.text.len() == 0 ==> mask_of(form.password.text) =~= Seq::empty());
}

/// What the form shows after a submission tells of a hidden password no more than
/// its length: two passwords of one length leave the same form.
pub proof fn form_does_not_tell_passwords_apart(form: FormView, other: Seq<char>)
    requires
        !form.password.visibility,
        other.len() == form.password.text.len(),
        !form.busy,
        !form.pending_mask,
        form.connected,
        !form.notice,
        form.challenge || trimmed(form.username.text).len() > 0,
    ensures
        ({
            let twin = FormView { password: form.password.with_text(other), ..form };
            let login = form.login;
            (FormView { login, ..form.submitted().0 }) == (FormView {
                login,
                ..twin.submitted().0
            })
        }),
{
    assert(mask_of(other) =~= mask_of(form.password.text));
}

/// Each question, text, reset, cancellation and loss of greetd empties the entry
/// for the password, and so does the end of a demo.
pub proof fn password_clears_at_auth_boundaries(form: FormView, step: StepView)
    requires
        match step {
            StepView::Send(request) => request == RequestView::CancelSession,
            StepView::Finished => form.demo,
            _ => true,
        },
    ensures
        form.applied(step).0.password.text == Seq::<char>::empty(),
        !form.applied(step).0.pending_mask,
{
}

/// A failed attempt, a loss of greetd and giving up leave no password behind,
/// neither in the login nor in the form.
pub proof fn failure_leaves_no_password(form: FormView, happening: Happening)
    requires
        form.wf(),
        match happening {
            Happening::Cancel | Happening::Disconnect => true,
            Happening::Receive { event: EventView::Auth(Err(_)) } => true,
            Happening::Receive {
                event: EventView::Auth(Ok(ResponseView::Error { .. })),
            } => true,
            _ => false,
        },
    ensures
        form.happened(happening).0.login.password is None,
        form.happened(happening).0.password.text == Seq::<char>::empty(),
        !form.happened(happening).0.pending_mask,
{
}

/// What an error of greetd says changes nothing that the user sees.
pub proof fn form_shows_no_error_details(
    form: FormView,
    error_type: ErrorType,
    description: Seq<char>,
    other_type: ErrorType,
    other_description: Seq<char>,
)
    ensures
        form.received(EventView::Auth(Ok(ResponseView::Error { error_type, description })))
            == form.received(
            EventView::Auth(
                Ok(ResponseView::Error { error_type: other_type, description: other_description }),
            ),
        ),
{
}

impl FormView {
    /// Whether the form is ready for an attempt: nothing is under way, and the
    /// hidden entry for the password is empty.
    pub open spec fn is_ready(self) -> bool {
        &&& self.login.state == State::Idle
        &&& self.login.password is None
        &&& !self.busy
        &&& !self.pending_mask
        &&& self.connected
        &&& !self.challenge
        &&& !self.notice
        &&& self.username.sensitive
        &&& self.password.sensitive
        &&& self.password.text.len() == 0
        &&& !self.password.visibility
        &&& self.password.purpose == InputPurpose::Password
        &&& self.password_label == "Password:"@
    }
}

proof fn failing(form: FormView, error: ResponseView)
    requires
        form.login.state == State::Authenticating || form.login.state == State::Starting,
        error is Error,
    ensures
        ({
            let (next, reaction) = form.received(EventView::Auth(Ok(error)));
            &&& reaction.work == Some(WorkView::Auth(RequestView::CancelSession))
            &&& next.login == form.login.cancelled(next.login.failure)
            &&& next.connected == form.connected
        }),
{
    let (login, step) = form.login.handled(error);
    let next = FormView { login, ..form }.cleared();
    assert(next.with_busy(true).connected == form.connected);
}

proof fn refusing(form: FormView, error: ResponseView)
    requires
        form.login.state == State::Cancelling,
        !form.login.cancel_retried,
        error is Error,
    ensures
        ({
            let (next, reaction) = form.received(EventView::Auth(Ok(error)));
            &&& reaction.work == Some(WorkView::Auth(RequestView::CancelSession))
            &&& next.login == (LoginView { cancel_retried: true, ..form.login })
            &&& next.connected == form.connected
        }),
{
    let (login, step) = form.login.handled(error);
    let next = FormView { login, ..form }.cleared();
    assert(next.with_busy(true).connected == form.connected);
}

proof fn confirming(form: FormView)
    requires
        form.login.state == State::Cancelling,
        form.login.password is None,
        form.connected,
    ensures
        ({
            let next = form.received(EventView::Auth(Ok(ResponseView::Success))).0;
            &&& next.is_ready()
            &&& next.message == form.login.failure
        }),
{
}

/// A failed attempt ends in an empty form for the next one, once greetd has
/// confirmed the cancellation, also where the first request for it failed.
pub proof fn failed_attempt_can_be_retried(
    form: FormView,
    first: ResponseView,
    second: ResponseView,
)
    requires
        form.login.state == State::Authenticating || form.login.state == State::Starting,
        form.connected,
        first is Error,
        second is Error,
    ensures
        ({
            let failed = form.received(EventView::Auth(Ok(first)));
            let refused = failed.0.received(EventView::Auth(Ok(second)));
            let cancel = Some(WorkView::Auth(RequestView::CancelSession));
            let renewed = failed.0.received(EventView::Auth(Ok(ResponseView::Success))).0;
            let renewed_late = refused.0.received(EventView::Auth(Ok(ResponseView::Success))).0;
            &&& failed.1.work == cancel
            &&& refused.1.work == cancel
            &&& renewed.is_ready()
            &&& renewed_late.is_ready()
            &&& renewed.message == failed.0.login.failure
            &&& renewed_late.message == failed.0.login.failure
        }),
{
    failing(form, first);
    let failed = form.received(EventView::Auth(Ok(first))).0;
    confirming(failed);
    refusing(failed, second);
    confirming(failed.received(EventView::Auth(Ok(second))).0);
}

/// A demo never leaves: a finished login brings the form back, and says that no
/// session was started. Outside of a demo a finished login is all that leaves.
pub proof fn only_a_finished_login_leaves(form: FormView, step: StepView)
    ensures
        form.applied(step).1.quit <==> step is Finished && !form.demo,
        step is Finished && form.demo ==> {
            &&& form.applied(step).0.message == "Demo complete — no session was started."@
            &&& !form.applied(step).0.challenge
            &&& !form.applied(step).0.busy
        },
{
}

/// A form that was cut off from greetd stays so, whatever happens.
pub proof fn lost_connection_stays_lost(form: FormView, course: Seq<Happening>)
    requires
        !form.connected,
    ensures
        !form.after(course).connected,
    decreases course.len(),
{
    if course.len() > 0 {
        lost_connection_stays_lost(form, course.drop_last());
    }
}

/// After greetd was lost the user can send nothing to it any more, and the power
/// controls are what is left.
pub proof fn lost_connection_sends_nothing(form: FormView, happening: Happening)
    requires
        form.wf(),
        !form.connected,
        form.admits(happening),
        !(happening is Receive),
    ensures
        !(form.happened(happening).1.work matches Some(WorkView::Auth(_))),
        form.cut_off().reboot.sensitive,
        form.cut_off().shutdown.sensitive,
{
}

/// Whether the happening forgets that a power control was pressed once.
pub open spec fn forgets_press(form: FormView, happening: Happening) -> bool {
    ||| happening is Power
    ||| happening is Submit && !form.busy && !form.pending_mask && form.connected
}

proof fn steps_leave_the_press(form: FormView, step: StepView)
    ensures
        form.applied(step).0.power_confirm == form.power_confirm,
        !(form.applied(step).1.work matches Some(WorkView::Power(_))),
{
}

proof fn submission_forgets_the_press(form: FormView)
    ensures
        form.submitted().0.power_confirm == if form.accepts_submit() {
            None
        } else {
            form.power_confirm
        },
        !(form.submitted().1.work matches Some(WorkView::Power(_))),
{
    let fresh = FormView { power_confirm: None, ..form };
    assert(fresh.answer_taken().power_confirm is None);
    let begun = FormView {
        message: LOGGING_IN@,
        login: form.login.begun(form.password.text),
        ..fresh.answer_taken()
    };
    let username = trimmed(form.username.text);
    let create = RequestView::CreateSession { username };
    let answer = RequestView::PostAuthMessageResponse { response: Some(form.password.text) };
    let acknowledge = RequestView::PostAuthMessageResponse { response: None };
    steps_leave_the_press(fresh, StepView::Send(acknowledge));
    steps_leave_the_press(fresh.answer_taken(), StepView::Send(answer));
    steps_leave_the_press(begun, StepView::Send(create));
}

proof fn press_is_remembered(form: FormView, happening: Happening)
    ensures
        ({
            let (next, reaction) = form.happened(happening);
            &&& next.power_confirm == match happening {
                Happening::Power { action } => if form.power_confirm == Some(action) {
                    None
                } else {
                    Some(action)
                },
                _ => if forgets_press(form, happening) {
                    None
                } else {
                    form.power_confirm
                },
            }
            &&& reaction.work matches Some(WorkView::Power(action)) ==> happening == (
            Happening::Power { action }) && form.power_confirm == Some(action)
            &&& happening matches Happening::Power { action } ==> (reaction.work is Some
                <==> form.power_confirm == Some(action))
        }),
{
    match happening {
        Happening::Submit => submission_forgets_the_press(form),
        Happening::Cancel => steps_leave_the_press(
            FormView { login: form.login.cancelled(Seq::empty()), ..form },
            StepView::Send(RequestView::CancelSession),
        ),
        Happening::Receive { event: EventView::Auth(Ok(response)) } => {
            let (login, step) = form.login.handled(response);
            steps_leave_the_press(FormView { login, ..form }, step);
        },
        _ => {},
    }
}

/// What is remembered of the presses after one more happening.
spec fn remembered(
    press: Option<PowerAction>,
    happening: Happening,
    forgets: bool,
) -> Option<PowerAction> {
    match happening {
        Happening::Power { action } => if press == Some(action) {
            None
        } else {
            Some(action)
        },
        _ => if forgets {
            None
        } else {
            press
        },
    }
}

proof fn last_press(
    presses: Seq<Option<PowerAction>>,
    course: Seq<Happening>,
    forgets: Seq<bool>,
    n: int,
    action: PowerAction,
) -> (i: int)
    requires
        0 <= n < presses.len(),
        n <= course.len(),
        n <= forgets.len(),
        presses[0] is None,
        presses[n] == Some(action),
        forall|k: int|
            0 <= k < n ==> {
                &&& presses[k + 1] == remembered(presses[k], course[k], #[trigger] forgets[k])
                &&& course[k] is Power ==> forgets[k]
            },
    ensures
        0 <= i < n,
        course[i] == (Happening::Power { action }),
        presses[i] != Some(action),
        forall|k: int| i < k < n ==> !#[trigger] forgets[k],
    decreases n,
{
    let k = n - 1;
    assert(presses[k + 1] == remembered(presses[k], course[k], forgets[k]));
    if forgets[k] {
        k
    } else {
        last_press(presses, course, forgets, k, action)
    }
}

proof fn press_at(form: FormView, course: Seq<Happening>, k: int)
    requires
        0 <= k < course.len(),
    ensures
        form.after(course.take(k + 1)).power_confirm == remembered(
            form.after(course.take(k)).power_confirm,
            course[k],
            forgets_press(form.after(course.take(k)), course[k]),
        ),
        course[k] matches Happening::Power { action } ==> (form.reaction_at(course, k).work is Some
            <==> form.after(course.take(k)).power_confirm == Some(action)),
        form.reaction_at(course, k).work matches Some(WorkView::Power(action)) ==> course[k] == (
        Happening::Power { action }) && form.after(course.take(k)).power_confirm == Some(action),
{
    after_one_more(form, course, k);
    press_is_remembered(form.after(course.take(k)), course[k]);
}

proof fn confirmation_was_asked_for(
    form: FormView,
    course: Seq<Happening>,
    n: int,
    action: PowerAction,
) -> (i: int)
    requires
        0 <= n <= course.len(),
        form.power_confirm is None,
        form.after(course.take(n)).power_confirm == Some(action),
    ensures
        0 <= i < n,
        course[i] == (Happening::Power { action }),
        form.reaction_at(course, i).work is None,
        forall|k: int|
            i < k < n ==> !forgets_press(form.after(course.take(k)), #[trigger] course[k]),
{
    let presses = Seq::new(
        (n + 1) as nat,
        |k: int| form.after(course.take(k)).power_confirm,
    );
    let forgets = Seq::new(
        n as nat,
        |k: int| forgets_press(form.after(course.take(k)), course[k]),
    );
    assert(course.take(0).len() == 0);
    assert forall|k: int| 0 <= k < n implies {
        &&& presses[k + 1] == remembered(presses[k], course[k], #[trigger] forgets[k])
        &&& course[k] is Power ==> forgets[k]
    } by {
        press_at(form, course, k);
    }
    let i = last_press(presses, course, forgets, n, action);
    press_at(form, course, i);
    assert forall|k: int| i < k < n implies !forgets_press(
        form.after(course.take(k)),
        #[trigger] course[k],
    ) by {
        assert(!forgets[k]);
    }
    i
}

/// A power action takes two presses of the same control, with no press of another
/// one and no submission in between. The first press hands out no work.
pub proof fn power_takes_two_presses(
    form: FormView,
    course: Seq<Happening>,
    j: int,
    action: PowerAction,
)
    requires
        0 <= j < course.len(),
        form.power_confirm is None,
        form.reaction_at(course, j).work == Some(WorkView::Power(action)),
    ensures
        course[j] == (Happening::Power { action }),
        exists|i: int|
            {
                &&& 0 <= i < j
                &&& #[trigger] course[i] == (Happening::Power { action })
                &&& form.reaction_at(course, i).work is None
                &&& forall|k: int|
                    i < k < j ==> !forgets_press(form.after(course.take(k)), #[trigger] course[k])
            },
{
    press_at(form, course, j);
    let i = confirmation_was_asked_for(form, course, j, action);
    assert(course[i] == (Happening::Power { action }));
}

/// Two presses in a row are enough.
pub proof fn two_presses_run_the_power_action(form: FormView, action: PowerAction)
    requires
        form.power_confirm != Some(action),
    ensures
        form.power_pressed(action).1 == ReactionView::nothing(),
        form.power_pressed(action).0.power_pressed(action).1 == ReactionView::working(
            WorkView::Power(action),
        ),
{
}

proof fn steps_keep_the_command(form: FormView, step: StepView)
    ensures
        form.applied(step).0.login.command == form.login.command,
        form.applied(step).1.work == match step {
            StepView::Send(request) => Some(WorkView::Auth(request)),
            _ => None,
        },
{
}

proof fn submission_keeps_the_command(form: FormView)
    ensures
        form.submitted().0.login.command == form.login.command,
        !(form.submitted().1.work matches Some(WorkView::Auth(RequestView::StartSession { .. }))),
{
    let fresh = FormView { power_confirm: None, ..form };
    assert(fresh.answer_taken().login == form.login);
    let begun = FormView {
        message: LOGGING_IN@,
        login: form.login.begun(form.password.text),
        ..fresh.answer_taken()
    };
    let username = trimmed(form.username.text);
    let create = RequestView::CreateSession { username };
    let answer = RequestView::PostAuthMessageResponse { response: Some(form.password.text) };
    let acknowledge = RequestView::PostAuthMessageResponse { response: None };
    steps_keep_the_command(fresh, StepView::Send(acknowledge));
    steps_keep_the_command(fresh.answer_taken(), StepView::Send(answer));
    steps_keep_the_command(begun, StepView::Send(create));
}

proof fn command_is_kept(form: FormView, happening: Happening)
    ensures
        form.happened(happening).0.login.command == form.login.command,
        form.happened(happening).1.work matches Some(
            WorkView::Auth(RequestView::StartSession { cmd, env }),
        ) ==> {
            &&& happening == (Happening::Receive {
                event: EventView::Auth(Ok(ResponseView::Success)),
            })
            &&& form.login.state == State::Authenticating
            &&& cmd == form.login.command
            &&& env == Seq::<Seq<char>>::empty()
        },
{
    match happening {
        Happening::Submit => submission_keeps_the_command(form),
        Happening::Cancel => steps_keep_the_command(
            FormView { login: form.login.cancelled(Seq::empty()), ..form },
            StepView::Send(RequestView::CancelSession),
        ),
        Happening::Receive { event: EventView::Auth(Ok(response)) } => {
            let (login, step) = form.login.handled(response);
            steps_keep_the_command(FormView { login, ..form }, step);
        },
        _ => {},
    }
}

proof fn command_is_kept_over(form: FormView, course: Seq<Happening>)
    ensures
        form.after(course).login.command == form.login.command,
    decreases course.len(),
{
    if course.len() > 0 {
        command_is_kept_over(form, course.drop_last());
        command_is_kept(form.after(course.drop_last()), course.last());
    }
}

/// The form of a greeter only ever starts the session executable of its options,
/// without arguments or environment, and only when greetd reports a success while
/// PAM was asking.
pub proof fn only_the_configured_session_starts(
    demo: bool,
    session: Seq<char>,
    course: Seq<Happening>,
    i: int,
)
    requires
        0 <= i < course.len(),
        FormView::initial(demo, session).reaction_at(course, i).work matches Some(
            WorkView::Auth(RequestView::StartSession { .. }),
        ),
    ensures
        ({
            let form = FormView::initial(demo, session);
            &&& form.reaction_at(course, i).work == Some(
                WorkView::Auth(
                    RequestView::StartSession { cmd: seq![session], env: Seq::empty() },
                ),
            )
            &&& course[i] == (Happening::Receive {
                event: EventView::Auth(Ok(ResponseView::Success)),
            })
            &&& form.after(course.take(i)).login.state == State::Authenticating
        }),
{
    let form = FormView::initial(demo, session);
    command_is_kept_over(form, course.take(i));
    command_is_kept(form.after(course.take(i)), course[i]);
}

} // verus!
