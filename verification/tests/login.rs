use nixy_greeter::protocol::{AuthMessageType, ErrorType, Request, Response};
use nixy_greeter::text::is_password_challenge;
use nixy_greeter::{Login, Step};

fn login() -> Login {
    Login::new(vec!["/session".into()])
}

fn message(auth_message_type: AuthMessageType, text: &str) -> Response {
    Response::AuthMessage {
        auth_message_type,
        auth_message: text.into(),
    }
}

fn secret(text: &str) -> Response {
    message(AuthMessageType::Secret, text)
}

fn error() -> Response {
    Response::Error {
        error_type: ErrorType::AuthError,
        description: "private PAM details".into(),
    }
}

#[test]
fn password_login_starts_only_after_authentication() {
    let mut l = login();
    assert!(matches!(
        l.begin("alice".into(), "test-password".into()),
        Step::Send(Request::CreateSession { .. })
    ));
    assert!(
        matches!(l.handle(secret("Password:")), Step::Send(Request::PostAuthMessageResponse { response: Some(ref s) }) if s == "test-password")
    );
    assert!(
        matches!(l.handle(Response::Success), Step::Send(Request::StartSession { ref cmd, ref env }) if cmd == &["/session"] && env.is_empty())
    );
    assert!(matches!(l.handle(Response::Success), Step::Finished));
}

#[test]
fn otp_does_not_receive_password_and_password_is_sent_only_once() {
    let mut l = login();
    l.begin("alice".into(), "test-password".into());
    assert!(matches!(
        l.handle(secret("Verification code:")),
        Step::Prompt { secret: true, .. }
    ));
    assert!(matches!(
        l.answer("123456".into()),
        Step::Send(Request::PostAuthMessageResponse { .. })
    ));
    assert!(matches!(l.handle(secret("Password:")), Step::Send(_)));
    assert!(matches!(
        l.handle(secret("Password:")),
        Step::Prompt { secret: true, .. }
    ));
}

#[test]
fn failure_cancels_before_retry_and_discards_password() {
    let mut l = login();
    l.begin("alice".into(), "test-password".into());
    assert!(matches!(
        l.handle(error()),
        Step::Send(Request::CancelSession)
    ));
    assert!(!l.has_password());
    assert!(
        matches!(l.handle(Response::Success), Step::Reset { ref message } if !message.contains("private"))
    );
    assert!(
        matches!(l.begin("bob".into(), "new-password".into()), Step::Send(Request::CreateSession { username }) if username == "bob")
    );
}

#[test]
fn session_launch_failure_is_not_login_success() {
    let mut l = login();
    l.begin("alice".into(), "test-password".into());
    l.handle(Response::Success);
    assert!(matches!(
        l.handle(error()),
        Step::Send(Request::CancelSession)
    ));
    assert!(
        matches!(l.handle(Response::Success), Step::Reset { message } if message.contains("desktop"))
    );
}

#[test]
fn failed_cancellation_does_not_allow_a_retry_on_unknown_state() {
    let mut l = login();
    l.begin("alice".into(), "test-password".into());
    assert!(matches!(l.cancel(""), Step::Send(Request::CancelSession)));
    assert!(matches!(
        l.handle(error()),
        Step::Send(Request::CancelSession)
    ));
    assert!(matches!(l.handle(error()), Step::Fatal));
    assert!(!l.has_password());
}

#[test]
fn cancellation_of_an_exited_pam_child_is_confirmed_before_retry() {
    let mut l = login();
    l.begin("alice".into(), "test-password".into());
    l.handle(error());
    assert!(matches!(
        l.handle(error()),
        Step::Send(Request::CancelSession)
    ));
    assert!(
        matches!(l.handle(Response::Success), Step::Reset { message } if message.contains("Login failed"))
    );
}

#[test]
fn pam_info_and_visible_challenges_are_supported() {
    let mut l = login();
    l.begin("alice".into(), "test-password".into());
    assert!(matches!(
        l.handle(Response::AuthMessage {
            auth_message_type: AuthMessageType::Info,
            auth_message: "Notice".into()
        }),
        Step::Notice { .. }
    ));
    assert!(matches!(
        l.acknowledge(),
        Step::Send(Request::PostAuthMessageResponse { response: None })
    ));
    assert!(matches!(
        l.handle(Response::AuthMessage {
            auth_message_type: AuthMessageType::Visible,
            auth_message: "Account:".into()
        }),
        Step::Prompt { secret: false, .. }
    ));
}

#[test]
fn challenges_carry_the_text_of_pam() {
    let mut l = login();
    l.begin("alice".into(), "test-password".into());
    assert!(
        matches!(l.handle(message(AuthMessageType::Visible, " Account: ")), Step::Prompt { ref text, secret: false } if text == " Account: ")
    );
    assert!(
        matches!(l.handle(message(AuthMessageType::Error, "Expired")), Step::Notice { ref text } if text == "Expired")
    );
    assert!(l.has_password());
}

#[test]
fn password_challenge_is_recognised_around_case_and_white_space() {
    for challenge in [
        "Password:",
        "password:",
        "PASSWORD:",
        "  Password: ",
        "\tpAsSwOrD:\r\n",
        "\u{a0}Password:\u{2003}",
        "\u{3000}Password:\u{85}",
    ] {
        assert!(is_password_challenge(challenge), "{challenge:?}");
        let mut l = login();
        l.begin("alice".into(), "test-password".into());
        assert!(
            matches!(l.handle(secret(challenge)), Step::Send(Request::PostAuthMessageResponse { response: Some(ref s) }) if s == "test-password")
        );
        assert!(!l.has_password());
    }
    for challenge in [
        "",
        "Password",
        "Password :",
        "Password: code",
        "New password:",
        "\u{200b}Password:",
        "Paßword:",
        "Verification code:",
    ] {
        assert!(!is_password_challenge(challenge), "{challenge:?}");
        let mut l = login();
        l.begin("alice".into(), "test-password".into());
        assert!(
            matches!(l.handle(secret(challenge)), Step::Prompt { ref text, secret: true } if text == challenge)
        );
        assert!(l.has_password());
    }
}

#[test]
fn every_white_space_character_is_trimmed_and_no_other() {
    let white_space = [
        '\u{9}', '\u{a}', '\u{b}', '\u{c}', '\u{d}', '\u{20}', '\u{85}', '\u{a0}', '\u{1680}',
        '\u{2000}', '\u{2001}', '\u{2002}', '\u{2003}', '\u{2004}', '\u{2005}', '\u{2006}',
        '\u{2007}', '\u{2008}', '\u{2009}', '\u{200a}', '\u{2028}', '\u{2029}', '\u{202f}',
        '\u{205f}', '\u{3000}',
    ];
    for code in 0..=0x10ffffu32 {
        if let Some(c) = char::from_u32(code) {
            assert_eq!(
                is_password_challenge(&format!("{c}Password:{c}")),
                white_space.contains(&c),
                "{code:x}"
            );
        }
    }
}

#[test]
fn only_ascii_letters_match_in_either_case() {
    // The long s is a small letter of `S` in Unicode, but no letter of ASCII.
    assert!(!is_password_challenge("Pa\u{17f}\u{17f}word:"));
    assert!(!is_password_challenge("Password;"));
    assert!(!is_password_challenge("PassworD\u{1a}"));
}

#[test]
fn visible_password_challenge_does_not_receive_password() {
    let mut l = login();
    l.begin("alice".into(), "test-password".into());
    assert!(matches!(
        l.handle(message(AuthMessageType::Visible, "Password:")),
        Step::Prompt { secret: false, .. }
    ));
    assert!(matches!(
        l.handle(message(AuthMessageType::Info, "Password:")),
        Step::Notice { .. }
    ));
    assert!(l.has_password());
}

#[test]
fn unexpected_responses_cancel_the_attempt() {
    let mut l = login();
    assert!(matches!(
        l.handle(Response::Success),
        Step::Send(Request::CancelSession)
    ));
    assert!(
        matches!(l.handle(Response::Success), Step::Reset { ref message } if message == "Unexpected login response. Please try again.")
    );
    assert!(matches!(
        l.handle(secret("Password:")),
        Step::Send(Request::CancelSession)
    ));
    l.handle(Response::Success);
    l.begin("alice".into(), "test-password".into());
    l.handle(Response::Success);
    assert!(matches!(
        l.handle(secret("Password:")),
        Step::Send(Request::CancelSession)
    ));
    assert!(
        matches!(l.handle(Response::Success), Step::Reset { ref message } if message == "Unexpected login response. Please try again.")
    );
}

#[test]
fn failure_messages_are_exact() {
    let mut l = login();
    l.handle(error());
    assert!(
        matches!(l.handle(Response::Success), Step::Reset { ref message } if message == "Login failed. Check your username and password.")
    );
    l.begin("alice".into(), "test-password".into());
    l.handle(Response::Success);
    l.handle(error());
    assert!(
        matches!(l.handle(Response::Success), Step::Reset { ref message } if message == "Unable to start the desktop. Please try again.")
    );
    l.cancel("Stopped.");
    assert!(matches!(l.handle(error()), Step::Send(Request::CancelSession)));
    assert!(
        matches!(l.handle(Response::Success), Step::Reset { ref message } if message == "Stopped.")
    );
}

#[test]
fn cancelling_login_stops_on_a_challenge() {
    let mut l = login();
    l.begin("alice".into(), "test-password".into());
    l.cancel("");
    assert!(matches!(l.handle(secret("Password:")), Step::Fatal));
    assert!(matches!(l.handle(error()), Step::Send(Request::CancelSession)));
    assert!(matches!(l.handle(secret("Password:")), Step::Fatal));
    assert!(
        matches!(l.handle(Response::Success), Step::Reset { ref message } if message.is_empty())
    );
}

#[test]
fn new_attempt_holds_its_own_password() {
    let mut l = login();
    assert!(!l.has_password());
    l.begin("alice".into(), "first".into());
    assert!(l.has_password());
    l.begin("bob".into(), "é🔑".into());
    assert!(
        matches!(l.handle(secret("Password:")), Step::Send(Request::PostAuthMessageResponse { response: Some(ref s) }) if s == "é🔑")
    );
}

#[test]
fn password_shows_in_no_step_but_the_answer() {
    let steps = |password: &str| {
        let mut l = login();
        let mut seen = Vec::new();
        let mut note = |step: Step| {
            seen.push(match step {
                Step::Send(Request::CreateSession { username }) => username,
                Step::Send(Request::StartSession { cmd, env }) => format!("{cmd:?} {env:?}"),
                Step::Prompt { text, secret } => format!("{text} {secret}"),
                Step::Notice { text } => text,
                Step::Reset { message } => message,
                Step::Finished => "finished".to_string(),
                Step::Fatal => "fatal".to_string(),
                Step::Send(_) => "sent".to_string(),
            })
        };
        note(l.begin("alice".into(), password.into()));
        note(l.handle(secret("Verification code:")));
        note(l.handle(message(AuthMessageType::Visible, "Password:")));
        note(l.handle(message(AuthMessageType::Info, "Hello")));
        note(l.handle(Response::Success));
        note(l.handle(error()));
        note(l.handle(Response::Success));
        seen
    };
    assert_eq!(steps("one"), steps("another"));
    assert!(!steps("test-password").iter().any(|step| step.contains("test-password")));
}
