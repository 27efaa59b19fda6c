//! The worker that talks to greetd and runs the power commands: what it does with
//! each piece of work, and what it reports.
use vstd::prelude::*;

use crate::login::{LoginView, StepView};
use crate::options::Options;
use crate::protocol::{AuthMessageType, Request, RequestView, Response, ResponseView};
use crate::text::usual_wording_asks_for_password;

verus! {

/// How long the worker waits for greetd to read or write, in seconds.
pub const TRANSPORT_TIMEOUT_SECONDS: u64 = 30;

/// What the power controls can do.
#[derive(Clone, Copy, Debug, PartialEq, Eq, Structural)]
pub enum PowerAction {
    Reboot,
    Poweroff,
}

/// A piece of work for the worker.
pub enum Work {
    /// A request to greetd.
    Auth(Request),
    /// A power action.
    Power(PowerAction),
}

/// What the worker reports.
pub enum Event {
    /// The response of greetd, if there was one.
    Auth(Result<Response, ()>),
    /// Whether the power action was accepted.
    Power(bool),
}

/// What the worker does with a request to greetd.
pub enum Exchange {
    /// The outcome is known without greetd.
    Settled(Result<Response, ()>),
    /// The request is written to the connection and the response is read from it.
    Transport,
}

/// What the worker does with a power action.
pub enum PowerCommand {
    /// The outcome is known without a command.
    Settled(bool),
    /// The program is run with the arguments, and succeeds or fails.
    Run { program: String, arguments: Vec<String> },
}

/// The worker.
pub struct Worker {
    demo: bool,
    systemctl: String,
    connected: bool,
}

/// What a piece of work says.
#[verifier::ext_equal]
pub enum WorkView {
    Auth(RequestView),
    Power(PowerAction),
}

/// What an event says.
#[verifier::ext_equal]
pub enum EventView {
    Auth(Result<ResponseView, ()>),
    Power(bool),
}

/// What an exchange says.
#[verifier::ext_equal]
pub enum ExchangeView {
    Settled(Result<ResponseView, ()>),
    Transport,
}

/// What a power command says.
#[verifier::ext_equal]
pub enum PowerCommandView {
    Settled(bool),
    Run { program: Seq<char>, arguments: Seq<Seq<char>> },
}

/// What a worker knows.
#[verifier::ext_equal]
pub struct WorkerView {
    /// Whether everything is simulated.
    pub demo: bool,
    /// The executable for the power actions.
    pub systemctl: Seq<char>,
    /// Whether there is a connection to greetd on which nothing has failed.
    pub connected: bool,
}

/// What a reply says.
pub open spec fn reply_view(reply: Result<Response, ()>) -> Result<ResponseView, ()> {
    match reply {
        Ok(response) => Ok(response@),
        Err(()) => Err(()),
    }
}

impl View for Work {
    type V = WorkView;

    open spec fn view(&self) -> WorkView {
        match self {
            Work::Auth(request) => WorkView::Auth(request@),
            Work::Power(action) => WorkView::Power(*action),
        }
    }
}

impl View for Event {
    type V = EventView;

    open spec fn view(&self) -> EventView {
        match self {
            Event::Auth(reply) => EventView::Auth(reply_view(*reply)),
            Event::Power(accepted) => EventView::Power(*accepted),
        }
    }
}

impl View for Exchange {
    type V = ExchangeView;

    open spec fn view(&self) -> ExchangeView {
        match self {
            Exchange::Settled(reply) => ExchangeView::Settled(reply_view(*reply)),
            Exchange::Transport => ExchangeView::Transport,
        }
    }
}

impl View for PowerCommand {
    type V = PowerCommandView;

    open spec fn view(&self) -> PowerCommandView {
        match self {
            PowerCommand::Settled(accepted) => PowerCommandView::Settled(*accepted),
            PowerCommand::Run { program, arguments } => PowerCommandView::Run {
                program: program@,
                arguments: arguments.deep_view(),
            },
        }
    }
}

impl View for Worker {
    type V = WorkerView;

    closed spec fn view(&self) -> WorkerView {
        WorkerView {
            demo: self.demo,
            systemctl: self.systemctl@,
            connected: self.connected,
        }
    }
}

/// The word that `systemctl` knows an action by.
pub open spec fn power_word(action: PowerAction) -> Seq<char> {
    match action {
        PowerAction::Reboot => "reboot"@,
        PowerAction::Poweroff => "poweroff"@,
    }
}

/// How a demo responds: the password is asked for, and anything else succeeds.
pub open spec fn simulated(request: RequestView) -> ResponseView {
    match request {
        RequestView::CreateSession { .. } => ResponseView::AuthMessage {
            auth_message_type: AuthMessageType::Secret,
            auth_message: "Password:"@,
        },
        _ => ResponseView::Success,
    }
}

impl WorkerView {
    /// What becomes of a request to greetd.
    pub open spec fn exchange(self, request: RequestView) -> ExchangeView {
        if self.demo {
            ExchangeView::Settled(Ok(simulated(request)))
        } else if self.connected {
            ExchangeView::Transport
        } else {
            ExchangeView::Settled(Err(()))
        }
    }

    /// The worker after the outcome of a request.
    pub open spec fn exchanged(self, reply: Result<ResponseView, ()>) -> WorkerView {
        WorkerView { connected: self.connected && reply is Ok, ..self }
    }

    /// What becomes of a power action.
    pub open spec fn power(self, action: PowerAction) -> PowerCommandView {
        if self.demo {
            PowerCommandView::Settled(true)
        } else {
            PowerCommandView::Run {
                program: self.systemctl,
                arguments: seq!["--no-ask-password"@, power_word(action)],
            }
        }
    }
}

/// Responds as greetd would to a login that works.
pub fn demo_response(request: &Request) -> (response: Response)
    ensures
        response@ == simulated(request@),
{
    match request {
        Request::CreateSession { .. } => Response::AuthMessage {
            auth_message_type: AuthMessageType::Secret,
            auth_message: "Password:".to_string(),
        },
        _ => Response::Success,
    }
}

impl Worker {
    /// A worker for the options, with or without a connection to greetd. A demo
    /// has none.
    pub fn new(options: &Options, connected: bool) -> (worker: Worker)
        ensures
            worker@ == (WorkerView {
                demo: options@.demo,
                systemctl: options@.systemctl,
                connected: connected && !options@.demo,
            }),
    {
        Worker {
            demo: options.demo,
            systemctl: options.systemctl.clone(),
            connected: connected && !options.demo,
        }
    }

    /// Whether the connection to greetd can be used.
    pub fn is_connected(&self) -> (res: bool)
        ensures
            res == self@.connected,
    {
        self.connected
    }

    /// Decides what to do with a request to greetd.
    pub fn exchange(&self, request: &Request) -> (exchange: Exchange)
        ensures
            exchange@ == self@.exchange(request@),
    {
        if self.demo {
            Exchange::Settled(Ok(demo_response(request)))
        } else if self.connected {
            Exchange::Transport
        } else {
            Exchange::Settled(Err(()))
        }
    }

    /// Takes in the outcome of a request: a connection that failed is not used
    /// again, and the answer that the request carried is overwritten.
    pub fn exchanged(&mut self, request: &mut Request, reply: Result<Response, ()>) -> (event:
        Event)
        ensures
            final(self)@ == old(self)@.exchanged(reply_view(reply)),
            final(request)@ == old(request)@.without_answer(),
            event@ == EventView::Auth(reply_view(reply)),
    {
        if reply.is_err() {
            self.connected = false;
        }
        request.wipe_answer();
        Event::Auth(reply)
    }

    /// Decides what to do with a power action.
    pub fn power(&self, action: PowerAction) -> (command: PowerCommand)
        ensures
            command@ == self@.power(action),
    {
        if self.demo {
            return PowerCommand::Settled(true);
        }
        let word = match action {
            PowerAction::Reboot => "reboot",
            PowerAction::Poweroff => "poweroff",
        };
        let arguments = vec!["--no-ask-password".to_string(), word.to_string()];
        assert(arguments.deep_view() =~= seq!["--no-ask-password"@, power_word(action)]);
        PowerCommand::Run { program: self.systemctl.clone(), arguments }
    }
}

impl WorkerView {
    /// The worker after the outcomes of a course of requests.
    pub open spec fn after(self, replies: Seq<Result<ResponseView, ()>>) -> WorkerView
        decreases replies.len(),
    {
        if replies.len() == 0 {
            self
        } else {
            self.after(replies.drop_last()).exchanged(replies.last())
        }
    }
}

/// The options of a worker do not change.
proof fn worker_options_are_fixed(worker: WorkerView, replies: Seq<Result<ResponseView, ()>>)
    ensures
        worker.after(replies).demo == worker.demo,
        worker.after(replies).systemctl == worker.systemctl,
    decreases replies.len(),
{
    if replies.len() > 0 {
        worker_options_are_fixed(worker, replies.drop_last());
    }
}

proof fn connection_lasts_until_a_failure(
    worker: WorkerView,
    replies: Seq<Result<ResponseView, ()>>,
)
    ensures
        worker.after(replies).connected <==> worker.connected && forall|i: int|
            0 <= i < replies.len() ==> #[trigger] replies[i] is Ok,
    decreases replies.len(),
{
    if replies.len() > 0 {
        let earlier = replies.drop_last();
        connection_lasts_until_a_failure(worker, earlier);
        assert(replies.last() == replies[replies.len() - 1]);
        assert(forall|i: int| 0 <= i < earlier.len() ==> earlier[i] == #[trigger] replies[i]);
        assert forall|i: int| 0 <= i < earlier.len() && replies[i] is Ok implies
            #[trigger] earlier[i] is Ok by {}
    }
}

/// A connection on which a request failed is never used again: every later
/// request fails at once.
pub proof fn failed_connection_is_not_reused(
    worker: WorkerView,
    replies: Seq<Result<ResponseView, ()>>,
    i: int,
    request: RequestView,
)
    requires
        !worker.demo,
        0 <= i < replies.len(),
        replies[i] is Err,
    ensures
        worker.after(replies).exchange(request) == ExchangeView::Settled(Err(())),
{
    worker_options_are_fixed(worker, replies);
    connection_lasts_until_a_failure(worker, replies);
}

/// Outside of a demo a working connection is used for every request.
pub proof fn working_connection_is_used(
    worker: WorkerView,
    replies: Seq<Result<ResponseView, ()>>,
    request: RequestView,
)
    requires
        !worker.demo,
        worker.connected,
        forall|i: int| 0 <= i < replies.len() ==> #[trigger] replies[i] is Ok,
    ensures
        worker.after(replies).exchange(request) == ExchangeView::Transport,
{
    worker_options_are_fixed(worker, replies);
    connection_lasts_until_a_failure(worker, replies);
}

/// A demo never talks to greetd and never runs a command, whatever it is asked.
pub proof fn demo_touches_nothing(
    worker: WorkerView,
    replies: Seq<Result<ResponseView, ()>>,
    request: RequestView,
    action: PowerAction,
)
    requires
        worker.demo,
    ensures
        worker.after(replies).exchange(request) == ExchangeView::Settled(Ok(simulated(request))),
        worker.after(replies).power(action) == PowerCommandView::Settled(true),
{
    worker_options_are_fixed(worker, replies);
}

/// Only the configured executable is ever run, only with the flag that keeps it
/// from asking for a password, and only to reboot or to power off.
pub proof fn only_the_configured_command_runs(
    worker: WorkerView,
    replies: Seq<Result<ResponseView, ()>>,
    action: PowerAction,
)
    ensures
        worker.after(replies).power(action) matches PowerCommandView::Run { program, arguments }
            ==> {
            &&& program == worker.systemctl
            &&& arguments == seq!["--no-ask-password"@, "reboot"@] || arguments
                == seq!["--no-ask-password"@, "poweroff"@]
        },
{
    worker_options_are_fixed(worker, replies);
}

/// A demo lets any credentials in: the password is asked for and sent, the session
/// is asked for, and the login finishes.
pub proof fn demo_accepts_any_credentials(
    login: LoginView,
    username: Seq<char>,
    password: Seq<char>,
)
    ensures
        ({
            let create = RequestView::CreateSession { username };
            let post = RequestView::PostAuthMessageResponse { response: Some(password) };
            let start = RequestView::StartSession { cmd: login.command, env: Seq::empty() };
            let asked = login.begun(password).handled(simulated(create));
            let authenticated = asked.0.handled(simulated(post));
            let started = authenticated.0.handled(simulated(start));
            &&& asked.1 == StepView::Send(post)
            &&& authenticated.1 == StepView::Send(start)
            &&& started.1 == StepView::Finished
        }),
{
    usual_wording_asks_for_password();
}

/// Outside of a demo each power action runs the configured executable with its own
/// word, connected or not and whatever greetd replied.
pub proof fn power_action_runs_its_own_word(
    worker: WorkerView,
    replies: Seq<Result<ResponseView, ()>>,
)
    requires
        !worker.demo,
    ensures
        ({
            let reboot = worker.after(replies).power(PowerAction::Reboot);
            let poweroff = worker.after(replies).power(PowerAction::Poweroff);
            &&& reboot == (PowerCommandView::Run {
                program: worker.systemctl,
                arguments: seq!["--no-ask-password"@, "reboot"@],
            })
            &&& poweroff == (PowerCommandView::Run {
                program: worker.systemctl,
                arguments: seq!["--no-ask-password"@, "poweroff"@],
            })
        }),
{
    worker_options_are_fixed(worker, replies);
}

/// The two power actions never run the same command.
pub proof fn power_actions_differ(worker: WorkerView)
    requires
        !worker.demo,
    ensures
        worker.power(PowerAction::Reboot) != worker.power(PowerAction::Poweroff),
{
    reveal_strlit("reboot");
    reveal_strlit("poweroff");
    let reboot = worker.power(PowerAction::Reboot)->arguments;
    let poweroff = worker.power(PowerAction::Poweroff)->arguments;
    assert(reboot[1].len() == 6);
    assert(poweroff[1].len() == 8);
}

/// A request goes to greetd just where there is a working connection and no demo.
/// Without a connection it fails, and in a demo a response is made up for it.
pub proof fn request_goes_to_greetd_or_is_settled(worker: WorkerView, request: RequestView)
    ensures
        worker.exchange(request) is Transport <==> !worker.demo && worker.connected,
        !worker.demo && !worker.connected ==> worker.exchange(request) == ExchangeView::Settled(
            Err(()),
        ),
        worker.demo ==> worker.exchange(request) matches ExchangeView::Settled(Ok(_)),
{
}

/// A demo asks for the password, as a secret and in PAM's own wording, when an
/// attempt is begun, and takes any other request well.
pub proof fn demo_asks_only_for_the_password(worker: WorkerView, request: RequestView)
    requires
        worker.demo,
    ensures
        request is CreateSession ==> worker.exchange(request) == ExchangeView::Settled(
            Ok(
                ResponseView::AuthMessage {
                    auth_message_type: AuthMessageType::Secret,
                    auth_message: "Password:"@,
                },
            ),
        ),
        !(request is CreateSession) ==> worker.exchange(request) == ExchangeView::Settled(
            Ok(ResponseView::Success),
        ),
        worker.exchange(request) == ExchangeView::Settled(Ok(simulated(request))),
{
}

/// Only a failure loses a connection, nothing brings one back, and the options of
/// the worker stay as they are.
pub proof fn only_a_failure_loses_the_connection(
    worker: WorkerView,
    reply: Result<ResponseView, ()>,
)
    ensures
        reply is Err ==> !worker.exchanged(reply).connected,
        reply is Ok ==> worker.exchanged(reply).connected == worker.connected,
        worker.exchanged(reply).demo == worker.demo,
        worker.exchanged(reply).systemctl == worker.systemctl,
{
}

/// What the worker is given and gives is what it reads: each part shows in the view.
pub proof fn work_and_reports_show_their_parts(
    work: Work,
    event: Event,
    exchange: Exchange,
    command: PowerCommand,
)
    ensures
        match work {
            Work::Auth(request) => work@ == WorkView::Auth(request@),
            Work::Power(action) => work@ == WorkView::Power(action),
        },
        match event {
            Event::Auth(Ok(response)) => event@ == EventView::Auth(Ok(response@)),
            Event::Auth(Err(_)) => event@ == EventView::Auth(Err(())),
            Event::Power(accepted) => event@ == EventView::Power(accepted),
        },
        match exchange {
            Exchange::Settled(Ok(response)) => exchange@ == ExchangeView::Settled(Ok(response@)),
            Exchange::Settled(Err(_)) => exchange@ == ExchangeView::Settled(Err(())),
            Exchange::Transport => exchange@ == ExchangeView::Transport,
        },
        match command {
            PowerCommand::Settled(accepted) => command@ == PowerCommandView::Settled(accepted),
            PowerCommand::Run { program, arguments } => {
                &&& command@ matches PowerCommandView::Run { program: path, arguments: words }
                &&& path == program@
                &&& words.len() == arguments@.len()
                &&& forall|i: int|
                    0 <= i < arguments@.len() ==> #[trigger] words[i] == arguments@[i]@
            },
        },
{
}

/// A reply is what it reads.
pub proof fn reply_shows_its_parts(reply: Result<Response, ()>)
    ensures
        match reply {
            Ok(response) => reply_view(reply) == Ok::<ResponseView, ()>(response@),
            Err(_) => reply_view(reply) == Err::<ResponseView, ()>(()),
        },
{
}

/// The view of a worker is what its fields hold.
proof fn worker_shows_its_fields(worker: Worker)
    ensures
        worker@.demo == worker.demo,
        worker@.systemctl == worker.systemctl@,
        worker@.connected == worker.connected,
{
}

} // verus!
