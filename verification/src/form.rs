//! The login form: what it shows, and what it does on each gesture of the user and
//! each event of the worker.
use vstd::prelude::*;

use crate::login::{Login, LoginView, Step, StepView};
use crate::options::Options;
use crate::protocol::{Request, RequestView};
use crate::secret::wipe;
use crate::text::{take, trimmed};
use crate::worker::{Event, EventView, PowerAction, Work, WorkView};

verus! {

/// The label of the entry for the password.
pub const PASSWORD_LABEL: &'static str = "Password:";

/// The label of the button that submits the form.
pub const LOG_IN_LABEL: &'static str = "Log in";

/// The label of that button while PAM is asking.
pub const CONTINUE_LABEL: &'static str = "Continue";

/// The label of the button that gives the attempt up.
pub const CANCEL_LABEL: &'static str = "Cancel";

/// The label of the button that reboots.
pub const REBOOT_LABEL: &'static str = "Reboot";

/// The label of the button that powers off.
pub const SHUTDOWN_LABEL: &'static str = "Shutdown";

/// Shown while a login attempt is under way.
pub const LOGGING_IN: &'static str = "Logging in…";

/// Shown once there is no way to talk to greetd.
pub const SERVICE_UNAVAILABLE: &'static str = "Login service unavailable. Use another console to recover.";

/// Shown at the end of a login in a demo.
pub const DEMO_COMPLETE: &'static str = "Demo complete — no session was started.";

/// Asks for a second press of the button that reboots.
pub const CONFIRM_REBOOT: &'static str = "Press Reboot again to confirm.";

/// Asks for a second press of the button that powers off.
pub const CONFIRM_SHUTDOWN: &'static str = "Press Shutdown again to confirm.";

/// Shown after a power action in a demo.
pub const DEMO_POWER: &'static str = "Demo only — no power action was performed.";

/// Shown after a power action that was accepted.
pub const POWER_REQUESTED: &'static str = "Power action requested.";

/// Shown after a power action that was not accepted.
pub const POWER_DENIED: &'static str = "Power action was denied or failed.";

/// What a text entry is for.
#[derive(Clone, Copy, Debug, PartialEq, Eq, Structural)]
pub enum InputPurpose {
    FreeForm,
    Password,
}

/// Where the keyboard focus goes.
#[derive(Clone, Copy, Debug, PartialEq, Eq, Structural)]
pub enum Focus {
    Nowhere,
    Username,
    Password,
    Submit,
}

/// A text entry.
pub struct Entry {
    /// What it holds.
    pub text: String,
    /// Whether it shows what it holds.
    pub visibility: bool,
    /// What it is for.
    pub purpose: InputPurpose,
    /// Whether the user can edit it.
    pub sensitive: bool,
}

/// A button.
pub struct Button {
    /// What it reads.
    pub label: String,
    /// Whether the user can press it.
    pub sensitive: bool,
    /// Whether it is shown.
    pub visible: bool,
}

/// The login form.
pub struct Form {
    /// The login attempt behind the form.
    pub login: Login,
    /// Whether everything is simulated.
    pub demo: bool,
    /// Whether the form waits for the worker.
    pub busy: bool,
    /// Whether the entry for the password holds a mask in place of what was typed.
    pub pending_mask: bool,
    /// Whether there is a way to talk to greetd.
    pub connected: bool,
    /// Whether PAM has asked something in this attempt.
    pub challenge: bool,
    /// Whether PAM waits for an acknowledgement alone.
    pub notice: bool,
    /// The power action that was pressed once.
    pub power_confirm: Option<PowerAction>,
    pub username: Entry,
    pub password: Entry,
    pub password_label: String,
    pub message: String,
    pub submit: Button,
    pub cancel: Button,
    pub reboot: Button,
    pub shutdown: Button,
}

/// What is left to do after the form has changed.
pub struct Reaction {
    /// Where the focus goes, if it moves.
    pub focus: Option<Focus>,
    /// Work for the worker.
    pub work: Option<Work>,
    /// Whether the greeter leaves.
    pub quit: bool,
}

/// What a text entry is.
#[verifier::ext_equal]
pub struct EntryView {
    pub text: Seq<char>,
    pub visibility: bool,
    pub purpose: InputPurpose,
    pub sensitive: bool,
}

/// What a button is.
#[verifier::ext_equal]
pub struct ButtonView {
    pub label: Seq<char>,
    pub sensitive: bool,
    pub visible: bool,
}

/// What the login form is.
#[verifier::ext_equal]
pub struct FormView {
    pub login: LoginView,
    pub demo: bool,
    pub busy: bool,
    pub pending_mask: bool,
    pub connected: bool,
    pub challenge: bool,
    pub notice: bool,
    pub power_confirm: Option<PowerAction>,
    pub username: EntryView,
    pub password: EntryView,
    pub password_label: Seq<char>,
    pub message: Seq<char>,
    pub submit: ButtonView,
    pub cancel: ButtonView,
    pub reboot: ButtonView,
    pub shutdown: ButtonView,
}

/// What a reaction says.
#[verifier::ext_equal]
pub struct ReactionView {
    pub focus: Option<Focus>,
    pub work: Option<WorkView>,
    pub quit: bool,
}

impl View for Entry {
    type V = EntryView;

    open spec fn view(&self) -> EntryView {
        EntryView {
            text: self.text@,
            visibility: self.visibility,
            purpose: self.purpose,
            sensitive: self.sensitive,
        }
    }
}

impl View for Button {
    type V = ButtonView;

    open spec fn view(&self) -> ButtonView {
        ButtonView { label: self.label@, sensitive: self.sensitive, visible: self.visible }
    }
}

impl View for Form {
    type V = FormView;

    open spec fn view(&self) -> FormView {
        FormView {
            login: self.login@,
            demo: self.demo,
            busy: self.busy,
            pending_mask: self.pending_mask,
            connected: self.connected,
            challenge: self.challenge,
            notice: self.notice,
            power_confirm: self.power_confirm,
            username: self.username@,
            password: self.password@,
            password_label: self.password_label@,
            message: self.message@,
            submit: self.submit@,
            cancel: self.cancel@,
            reboot: self.reboot@,
            shutdown: self.shutdown@,
        }
    }
}

impl View for Reaction {
    type V = ReactionView;

    open spec fn view(&self) -> ReactionView {
        ReactionView {
            focus: self.focus,
            work: match self.work {
                Some(work) => Some(work@),
                None => None,
            },
            quit: self.quit,
        }
    }
}

/// As many bullets as a text has characters.
pub open spec fn mask_of(text: Seq<char>) -> Seq<char> {
    Seq::new(text.len(), |i: int| '•')
}

impl ReactionView {
    /// Nothing left to do.
    pub open spec fn nothing() -> ReactionView {
        ReactionView { focus: None, work: None, quit: false }
    }

    /// The focus moves, and that is all.
    pub open spec fn focused(focus: Focus) -> ReactionView {
        ReactionView { focus: Some(focus), ..ReactionView::nothing() }
    }

    /// The worker gets work, and the focus leaves the form meanwhile.
    pub open spec fn working(work: WorkView) -> ReactionView {
        ReactionView { work: Some(work), ..ReactionView::focused(Focus::Nowhere) }
    }
}

impl ButtonView {
    /// A button that can or cannot be pressed.
    pub open spec fn with_sensitive(self, sensitive: bool) -> ButtonView {
        ButtonView { sensitive, ..self }
    }
}

impl EntryView {
    /// An entry that can or cannot be edited.
    pub open spec fn with_sensitive(self, sensitive: bool) -> EntryView {
        EntryView { sensitive, ..self }
    }

    /// An entry that holds another text.
    pub open spec fn with_text(self, text: Seq<char>) -> EntryView {
        EntryView { text, ..self }
    }
}

impl FormView {
    /// The form that a greeter starts with.
    pub open spec fn initial(demo: bool, session: Seq<char>) -> FormView {
        FormView {
            login: LoginView::idle(seq![session]),
            demo,
            busy: false,
            pending_mask: false,
            connected: true,
            challenge: false,
            notice: false,
            power_confirm: None,
            username: EntryView {
                text: Seq::empty(),
                visibility: true,
                purpose: InputPurpose::FreeForm,
                sensitive: true,
            },
            password: EntryView {
                text: Seq::empty(),
                visibility: false,
                purpose: InputPurpose::Password,
                sensitive: true,
            },
            password_label: PASSWORD_LABEL@,
            message: Seq::empty(),
            submit: ButtonView { label: LOG_IN_LABEL@, sensitive: true, visible: false },
            cancel: ButtonView { label: CANCEL_LABEL@, sensitive: false, visible: false },
            reboot: ButtonView { label: REBOOT_LABEL@, sensitive: true, visible: true },
            shutdown: ButtonView { label: SHUTDOWN_LABEL@, sensitive: true, visible: true },
        }
    }

    /// The form with nothing in the entry for the password.
    pub open spec fn cleared(self) -> FormView {
        FormView {
            password: self.password.with_text(Seq::empty()),
            pending_mask: false,
            ..self
        }
    }

    /// The form while it waits for the worker, or once it does not. The controls
    /// follow, and a mask does not outlast the wait.
    pub open spec fn with_busy(self, busy: bool) -> FormView {
        let form = if !busy && self.pending_mask {
            self.cleared()
        } else {
            self
        };
        let can_login = !busy && self.connected;
        FormView {
            busy,
            username: form.username.with_sensitive(can_login && !form.challenge),
            password: form.password.with_sensitive(can_login && !form.notice),
            submit: ButtonView { sensitive: can_login, visible: form.notice, ..form.submit },
            cancel: ButtonView {
                sensitive: can_login && form.challenge,
                visible: form.challenge,
                ..form.cancel
            },
            reboot: form.reboot.with_sensitive(!busy),
            shutdown: form.shutdown.with_sensitive(!busy),
            ..form
        }
    }

    /// The form after what was typed for the password was taken out of it. Where
    /// the entry was hidden, a mask of the same length is left behind.
    pub open spec fn answer_taken(self) -> FormView {
        let typed = self.password.text;
        let form = self.with_busy(true).cleared();
        if !self.password.visibility && typed.len() > 0 {
            FormView {
                password: form.password.with_text(mask_of(typed)),
                pending_mask: true,
                ..form
            }
        } else {
            form
        }
    }

    /// The form after it handed a request to the worker.
    pub open spec fn sent(self, request: RequestView) -> FormView {
        if request == RequestView::CancelSession {
            self.cleared().with_busy(true)
        } else {
            self.with_busy(true)
        }
    }

    /// The form once there is no way to talk to greetd. Only the power controls
    /// are left.
    pub open spec fn cut_off(self) -> FormView {
        let form = FormView {
            login: self.login.cancelled(Seq::empty()),
            connected: false,
            message: SERVICE_UNAVAILABLE@,
            ..self.cleared()
        }.with_busy(true);
        FormView {
            reboot: form.reboot.with_sensitive(true),
            shutdown: form.shutdown.with_sensitive(true),
            ..form
        }
    }

    /// The form ready for a new attempt.
    pub open spec fn renewed(self, message: Seq<char>) -> FormView {
        let form = self.cleared();
        FormView {
            challenge: false,
            notice: false,
            password: EntryView {
                visibility: false,
                purpose: InputPurpose::Password,
                ..form.password
            },
            password_label: PASSWORD_LABEL@,
            submit: ButtonView { label: LOG_IN_LABEL@, ..form.submit },
            message,
            ..form
        }.with_busy(false)
    }

    /// The form that puts a question of PAM to the user.
    pub open spec fn prompting(self, text: Seq<char>, secret: bool) -> FormView {
        let form = self.cleared();
        FormView {
            challenge: true,
            notice: false,
            password: EntryView {
                visibility: !secret,
                purpose: if secret {
                    InputPurpose::Password
                } else {
                    InputPurpose::FreeForm
                },
                ..form.password
            },
            password_label: text,
            submit: ButtonView { label: CONTINUE_LABEL@, ..form.submit },
            message: Seq::empty(),
            ..form
        }.with_busy(false)
    }

    /// The form that shows a text of PAM to acknowledge.
    pub open spec fn noticing(self, text: Seq<char>) -> FormView {
        let form = self.cleared();
        FormView {
            challenge: true,
            notice: true,
            message: text,
            submit: ButtonView { label: CONTINUE_LABEL@, ..form.submit },
            ..form
        }.with_busy(false)
    }

    /// The form after a step of the login, and what is left to do.
    pub open spec fn applied(self, step: StepView) -> (FormView, ReactionView) {
        match step {
            StepView::Send(request) => (
                self.sent(request),
                ReactionView::working(WorkView::Auth(request)),
            ),
            StepView::Prompt { text, secret } => (
                self.prompting(text, secret),
                ReactionView::focused(Focus::Password),
            ),
            StepView::Notice { text } => (
                self.noticing(text),
                ReactionView::focused(Focus::Submit),
            ),
            StepView::Reset { message } => (
                self.renewed(message),
                ReactionView::focused(Focus::Username),
            ),
            StepView::Finished => if self.demo {
                (self.renewed(DEMO_COMPLETE@), ReactionView::focused(Focus::Username))
            } else {
                (self, ReactionView { quit: true, ..ReactionView::nothing() })
            },
            StepView::Fatal => (self.cut_off(), ReactionView::focused(Focus::Nowhere)),
        }
    }

    /// Whether submitting the form does anything.
    pub open spec fn accepts_submit(self) -> bool {
        !self.busy && !self.pending_mask && self.connected
    }

    /// The form after it was submitted, and what is left to do.
    pub open spec fn submitted(self) -> (FormView, ReactionView) {
        let form = FormView { power_confirm: None, ..self };
        let username = trimmed(self.username.text);
        let typed = self.password.text;
        if !self.accepts_submit() {
            (self, ReactionView::nothing())
        } else if self.notice {
            form.applied(
                StepView::Send(RequestView::PostAuthMessageResponse { response: None }),
            )
        } else if self.challenge {
            form.answer_taken().applied(
                StepView::Send(RequestView::PostAuthMessageResponse { response: Some(typed) }),
            )
        } else if username.len() == 0 {
            (form, ReactionView::focused(Focus::Username))
        } else {
            FormView {
                message: LOGGING_IN@,
                login: self.login.begun(typed),
                ..form.answer_taken()
            }.applied(StepView::Send(RequestView::CreateSession { username }))
        }
    }

    /// The form after a power control was pressed, and what is left to do. The
    /// first press asks for a second one.
    pub open spec fn power_pressed(self, action: PowerAction) -> (FormView, ReactionView) {
        if self.power_confirm == Some(action) {
            (
                FormView { power_confirm: None, ..self }.with_busy(true),
                ReactionView::working(WorkView::Power(action)),
            )
        } else {
            (
                FormView {
                    power_confirm: Some(action),
                    message: match action {
                        PowerAction::Reboot => CONFIRM_REBOOT@,
                        PowerAction::Poweroff => CONFIRM_SHUTDOWN@,
                    },
                    ..self
                },
                ReactionView::nothing(),
            )
        }
    }

    /// The form after the attempt was given up, and what is left to do.
    pub open spec fn cancel_pressed(self) -> (FormView, ReactionView) {
        FormView { login: self.login.cancelled(Seq::empty()), ..self }.applied(
            StepView::Send(RequestView::CancelSession),
        )
    }

    /// The form after an event of the worker, and what is left to do.
    pub open spec fn received(self, event: EventView) -> (FormView, ReactionView) {
        match event {
            EventView::Auth(Ok(response)) => {
                let (login, step) = self.login.handled(response);
                FormView { login, ..self }.applied(step)
            },
            EventView::Auth(Err(())) => (
                self.cut_off(),
                ReactionView::focused(Focus::Nowhere),
            ),
            EventView::Power(accepted) => (
                FormView {
                    message: if self.demo {
                        DEMO_POWER@
                    } else if accepted {
                        POWER_REQUESTED@
                    } else {
                        POWER_DENIED@
                    },
                    ..self
                }.with_busy(false),
                ReactionView::nothing(),
            ),
        }
    }
}

/// A mask for a text: as many bullets as it has characters.
pub fn mask(text: &str) -> (res: String)
    ensures
        res@ == mask_of(text@),
{
    let count = text.unicode_len();
    let mut res = String::new();
    let mut i: usize = 0;
    proof {
        reveal_strlit("•");
    }
    while i < count
        invariant
            i <= count,
            "•"@ == seq!['•'],
            res@ =~= Seq::new(i as nat, |k: int| '•'),
        decreases count - i,
    {
        res.append("•");
        i = i + 1;
    }
    res
}

impl Reaction {
    fn nothing() -> (reaction: Reaction)
        ensures
            reaction@ == ReactionView::nothing(),
    {
        Reaction { focus: None, work: None, quit: false }
    }

    fn focused(focus: Focus) -> (reaction: Reaction)
        ensures
            reaction@ == ReactionView::focused(focus),
    {
        Reaction { focus: Some(focus), work: None, quit: false }
    }

    fn working(work: Work) -> (reaction: Reaction)
        ensures
            reaction@ == ReactionView::working(work@),
    {
        Reaction { focus: Some(Focus::Nowhere), work: Some(work), quit: false }
    }
}

impl Form {
    /// The form that a greeter starts with.
    pub fn new(options: &Options) -> (form: Form)
        ensures
            form@ == FormView::initial(options@.demo, options@.session),
    {
        let command = vec![options.session.clone()];
        assert(command.deep_view() =~= seq![options@.session]);
        Form {
            login: Login::new(command),
            demo: options.demo,
            busy: false,
            pending_mask: false,
            connected: true,
            challenge: false,
            notice: false,
            power_confirm: None,
            username: Entry {
                text: String::new(),
                visibility: true,
                purpose: InputPurpose::FreeForm,
                sensitive: true,
            },
            password: Entry {
                text: String::new(),
                visibility: false,
                purpose: InputPurpose::Password,
                sensitive: true,
            },
            password_label: PASSWORD_LABEL.to_string(),
            message: String::new(),
            submit: Button { label: LOG_IN_LABEL.to_string(), sensitive: true, visible: false },
            cancel: Button { label: CANCEL_LABEL.to_string(), sensitive: false, visible: false },
            reboot: Button { label: REBOOT_LABEL.to_string(), sensitive: true, visible: true },
            shutdown: Button { label: SHUTDOWN_LABEL.to_string(), sensitive: true, visible: true },
        }
    }

    /// Empties the entry for the password.
    pub fn clear_password(&mut self)
        ensures
            final(self)@ == old(self)@.cleared(),
    {
        wipe(&mut self.password.text);
        self.pending_mask = false;
    }

    /// Takes what was typed for the password out of the form.
    pub fn take_answer(&mut self) -> (answer: String)
        ensures
            final(self)@ == old(self)@.answer_taken(),
            answer@ == old(self)@.password.text,
    {
        let answer = take(&mut self.password.text);
        self.busy(true);
        self.clear_password();
        if !self.password.visibility && !answer.as_str().is_empty() {
            // Preserve only the displayed length while waiting, never the credential.
            self.password.text = mask(answer.as_str());
            self.pending_mask = true;
        }
        answer
    }

    /// Makes the form wait for the worker, or ends the wait.
    pub fn busy(&mut self, busy: bool)
        ensures
            final(self)@ == old(self)@.with_busy(busy),
    {
        if !busy && self.pending_mask {
            self.clear_password();
        }
        self.busy = busy;
        let can_login = !busy && self.connected;
        self.username.sensitive = can_login && !self.challenge;
        self.password.sensitive = can_login && !self.notice;
        self.submit.sensitive = can_login;
        self.cancel.sensitive = can_login && self.challenge;
        self.submit.visible = self.notice;
        self.cancel.visible = self.challenge;
        self.reboot.sensitive = !busy;
        self.shutdown.sensitive = !busy;
    }

    /// Hands a request to the worker.
    pub fn send(&mut self, request: Request) -> (reaction: Reaction)
        ensures
            final(self)@ == old(self)@.sent(request@),
            reaction@ == ReactionView::working(WorkView::Auth(request@)),
    {
        if let Request::CancelSession = request {
            self.clear_password();
        }
        self.busy(true);
        Reaction::working(Work::Auth(request))
    }

    /// Stops talking to greetd.
    pub fn disconnected(&mut self) -> (reaction: Reaction)
        ensures
            final(self)@ == old(self)@.cut_off(),
            reaction@ == ReactionView::focused(Focus::Nowhere),
    {
        self.connected = false;
        self.clear_password();
        // Drop all pending password material and do not reuse a broken IPC stream.
        let _ = self.login.cancel("");
        proof {
            reveal_strlit("");
            assert(""@ =~= Seq::<char>::empty());
        }
        self.message = SERVICE_UNAVAILABLE.to_string();
        self.busy(true);
        self.reboot.sensitive = true;
        self.shutdown.sensitive = true;
        Reaction::focused(Focus::Nowhere)
    }

    /// Makes the form ready for a new attempt.
    pub fn reset(&mut self, message: &str) -> (reaction: Reaction)
        ensures
            final(self)@ == old(self)@.renewed(message@),
            reaction@ == ReactionView::focused(Focus::Username),
    {
        self.challenge = false;
        self.notice = false;
        self.clear_password();
        self.password.visibility = false;
        self.password.purpose = InputPurpose::Password;
        self.password_label = PASSWORD_LABEL.to_string();
        self.submit.label = LOG_IN_LABEL.to_string();
        self.message = message.to_string();
        self.busy(false);
        Reaction::focused(Focus::Username)
    }

    /// Does what a step of the login asks for.
    pub fn apply(&mut self, step: Step) -> (reaction: Reaction)
        ensures
            (final(self)@, reaction@) == old(self)@.applied(step@),
    {
        match step {
            Step::Send(request) => self.send(request),
            Step::Prompt { text, secret } => {
                self.challenge = true;
                self.notice = false;
                self.clear_password();
                self.password.visibility = !secret;
                self.password.purpose = if secret {
                    InputPurpose::Password
                } else {
                    InputPurpose::FreeForm
                };
                self.password_label = text;
                self.submit.label = CONTINUE_LABEL.to_string();
                self.message = String::new();
                self.busy(false);
                Reaction::focused(Focus::Password)
            },
            Step::Notice { text } => {
                self.clear_password();
                self.challenge = true;
                self.notice = true;
                self.message = text;
                self.submit.label = CONTINUE_LABEL.to_string();
                self.busy(false);
                Reaction::focused(Focus::Submit)
            },
            Step::Reset { message } => self.reset(message.as_str()),
            Step::Finished => if self.demo {
                self.reset(DEMO_COMPLETE)
            } else {
                Reaction { focus: None, work: None, quit: true }
            },
            Step::Fatal => self.disconnected(),
        }
    }

    /// Submits the form.
    pub fn submit(&mut self) -> (reaction: Reaction)
        ensures
            (final(self)@, reaction@) == old(self)@.submitted(),
    {
        if self.busy || self.pending_mask || !self.connected {
            return Reaction::nothing();
        }
        self.power_confirm = None;
        let step = if self.notice {
            self.login.acknowledge()
        } else if self.challenge {
            let answer = self.take_answer();
            self.login.answer(answer)
        } else {
            let username = self.username.text.trim().to_string();
            if username.as_str().is_empty() {
                return Reaction::focused(Focus::Username);
            }
            let password = self.take_answer();
            self.message = LOGGING_IN.to_string();
            self.login.begin(username, password)
        };
        self.apply(step)
    }

    /// Presses a power control.
    pub fn power(&mut self, action: PowerAction) -> (reaction: Reaction)
        ensures
            (final(self)@, reaction@) == old(self)@.power_pressed(action),
    {
        let confirmed = match self.power_confirm {
            Some(pressed) => pressed == action,
            None => false,
        };
        if !confirmed {
            self.power_confirm = Some(action);
            self.message = match action {
                PowerAction::Reboot => CONFIRM_REBOOT,
                PowerAction::Poweroff => CONFIRM_SHUTDOWN,
            }.to_string();
            return Reaction::nothing();
        }
        self.power_confirm = None;
        self.busy(true);
        Reaction::working(Work::Power(action))
    }

    /// Gives the attempt up.
    pub fn give_up(&mut self) -> (reaction: Reaction)
        ensures
            (final(self)@, reaction@) == old(self)@.cancel_pressed(),
    {
        let step = self.login.cancel("");
        proof {
            reveal_strlit("");
            assert(""@ =~= Seq::<char>::empty());
        }
        self.apply(step)
    }

    /// Takes in an event of the worker.
    pub fn receive(&mut self, event: Event) -> (reaction: Reaction)
        ensures
            (final(self)@, reaction@) == old(self)@.received(event@),
    {
        match event {
            Event::Auth(Ok(response)) => {
                let step = self.login.handle(response);
                self.apply(step)
            },
            Event::Auth(Err(())) => self.disconnected(),
            Event::Power(accepted) => {
                self.message = if self.demo {
                    DEMO_POWER
                } else if accepted {
                    POWER_REQUESTED
                } else {
                    POWER_DENIED
                }.to_string();
                self.busy(false);
                Reaction::nothing()
            },
        }
    }
}

} // verus!
