use nixy_greeter::options::Options;
use nixy_greeter::protocol::{AuthMessageType, ErrorType, Request, Response};
use nixy_greeter::worker::{
    demo_response, Event, Exchange, PowerAction, PowerCommand, Worker, TRANSPORT_TIMEOUT_SECONDS,
};
use nixy_greeter::{Login, Step};

fn options(demo: bool) -> Options {
    Options {
        demo,
        session: "/session".into(),
        systemctl: "/systemctl".into(),
        style: None,
    }
}

#[test]
fn working_connection_carries_requests() {
    let mut worker = Worker::new(&options(false), true);
    let mut request = Request::CancelSession;
    for _ in 0..3 {
        assert!(matches!(worker.exchange(&request), Exchange::Transport));
        assert!(matches!(
            worker.exchanged(&mut request, Ok(Response::Success)),
            Event::Auth(Ok(Response::Success))
        ));
        assert!(worker.is_connected());
    }
    assert_eq!(TRANSPORT_TIMEOUT_SECONDS, 30);
}

#[test]
fn failed_connection_is_not_reused() {
    let mut worker = Worker::new(&options(false), true);
    let mut request = Request::CancelSession;
    assert!(matches!(worker.exchanged(&mut request, Err(())), Event::Auth(Err(()))));
    assert!(!worker.is_connected());
    assert!(matches!(worker.exchange(&request), Exchange::Settled(Err(()))));
    worker.exchanged(&mut request, Ok(Response::Success));
    assert!(!worker.is_connected());
    let unconnected = Worker::new(&options(false), false);
    assert!(matches!(unconnected.exchange(&request), Exchange::Settled(Err(()))));
}

#[test]
fn error_response_keeps_the_connection() {
    let mut worker = Worker::new(&options(false), true);
    let reply = Response::Error {
        error_type: ErrorType::Error,
        description: "no".into(),
    };
    assert!(matches!(
        worker.exchanged(&mut Request::CancelSession, Ok(reply)),
        Event::Auth(Ok(Response::Error { error_type: ErrorType::Error, ref description })) if description == "no"
    ));
    assert!(worker.is_connected());
}

#[test]
fn answers_are_wiped_after_use() {
    let mut worker = Worker::new(&options(true), false);
    let mut request = Request::PostAuthMessageResponse {
        response: Some("test-password".into()),
    };
    worker.exchanged(&mut request, Ok(Response::Success));
    assert!(
        matches!(request, Request::PostAuthMessageResponse { response: Some(ref s) } if s.is_empty())
    );
    let mut request = Request::CreateSession { username: "alice".into() };
    worker.exchanged(&mut request, Err(()));
    assert!(matches!(request, Request::CreateSession { ref username } if username == "alice"));
    let mut request = Request::PostAuthMessageResponse { response: None };
    request.wipe_answer();
    assert!(matches!(request, Request::PostAuthMessageResponse { response: None }));
    let mut request = Request::StartSession {
        cmd: vec!["/session".into()],
        env: vec!["A=B".into()],
    };
    request.wipe_answer();
    assert!(
        matches!(request, Request::StartSession { ref cmd, ref env } if cmd == &["/session"] && env == &["A=B"])
    );
}

#[test]
fn demo_simulates_a_login_with_any_credentials() {
    let worker = Worker::new(&options(true), true);
    assert!(!worker.is_connected());
    let mut login = Login::new(vec!["/session".into()]);
    let mut step = login.begin("anyone".into(), "anything".into());
    let mut sent = Vec::new();
    while let Step::Send(request) = step {
        let response = match worker.exchange(&request) {
            Exchange::Settled(Ok(response)) => response,
            _ => panic!("greetd was asked"),
        };
        sent.push(request);
        step = login.handle(response);
    }
    assert!(matches!(step, Step::Finished));
    assert_eq!(sent.len(), 3);
    assert!(
        matches!(sent[1], Request::PostAuthMessageResponse { response: Some(ref s) } if s == "anything")
    );
    assert!(matches!(
        demo_response(&sent[0]),
        Response::AuthMessage { auth_message_type: AuthMessageType::Secret, ref auth_message } if auth_message == "Password:"
    ));
    assert!(matches!(demo_response(&Request::CancelSession), Response::Success));
}

#[test]
fn only_the_configured_command_runs() {
    let worker = Worker::new(&options(false), false);
    assert!(matches!(
        worker.power(PowerAction::Reboot),
        PowerCommand::Run { ref program, ref arguments }
            if program == "/systemctl" && arguments == &["--no-ask-password", "reboot"]
    ));
    assert!(matches!(
        worker.power(PowerAction::Poweroff),
        PowerCommand::Run { ref program, ref arguments }
            if program == "/systemctl" && arguments == &["--no-ask-password", "poweroff"]
    ));
}

#[test]
fn demo_runs_no_command() {
    let worker = Worker::new(&options(true), false);
    assert!(matches!(worker.power(PowerAction::Reboot), PowerCommand::Settled(true)));
    assert!(matches!(worker.power(PowerAction::Poweroff), PowerCommand::Settled(true)));
}
