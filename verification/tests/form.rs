use nixy_greeter::form::{mask, Focus, Form, InputPurpose, Reaction};
use nixy_greeter::options::Options;
use nixy_greeter::protocol::{AuthMessageType, ErrorType, Request, Response};
use nixy_greeter::worker::{Event, PowerAction, Work};
use nixy_greeter::Step;

fn form(demo: bool) -> Form {
    Form::new(&Options {
        demo,
        session: "/session".into(),
        systemctl: "/systemctl".into(),
        style: None,
    })
}

fn prompt(text: &str, secret: bool) -> Response {
    Response::AuthMessage {
        auth_message_type: if secret {
            AuthMessageType::Secret
        } else {
            AuthMessageType::Visible
        },
        auth_message: text.into(),
    }
}

fn error() -> Response {
    Response::Error {
        error_type: ErrorType::AuthError,
        description: "private".into(),
    }
}

fn respond(form: &mut Form, response: Response) -> Reaction {
    let step = form.login.handle(response);
    form.apply(step)
}

fn receive(form: &mut Form, response: Response) -> Reaction {
    form.receive(Event::Auth(Ok(response)))
}

fn is_nothing(reaction: &Reaction) -> bool {
    reaction.focus.is_none() && reaction.work.is_none() && !reaction.quit
}

fn log_in(form: &mut Form) -> Reaction {
    form.username.text = "alice".into();
    form.password.text = "test-password".into();
    form.submit()
}

#[test]
fn pending_password_is_only_a_mask_and_clears_at_auth_boundaries() {
    let mut form = form(true);
    form.username.text = "alice".into();
    // GTK masks Unicode scalar values, not UTF-8 bytes or grapheme clusters.
    let password = "é🔑e\u{301}";
    form.password.text = password.into();
    let reaction = form.submit();
    assert_eq!(form.password.text, "••••");
    assert!(!form.password.sensitive);
    assert_eq!(form.message, "Logging in…");
    assert!(matches!(
        reaction.work,
        Some(Work::Auth(Request::CreateSession { .. }))
    ));
    assert!(form.submit().work.is_none());
    let reaction = respond(&mut form, prompt("Password:", true));
    assert!(
        matches!(reaction.work, Some(Work::Auth(Request::PostAuthMessageResponse { response: Some(s) })) if s == password)
    );
    assert_eq!(form.password.text, "••••");

    respond(&mut form, prompt("Verification code:", true));
    assert!(form.password.text.is_empty());
    assert!(!form.pending_mask);
    assert!(form.password.sensitive);
    form.password.text = "123456".into();
    let reaction = form.submit();
    assert_eq!(form.password.text, "••••••");
    assert!(
        matches!(reaction.work, Some(Work::Auth(Request::PostAuthMessageResponse { response: Some(s) })) if s == "123456")
    );

    respond(&mut form, prompt("Account:", false));
    assert!(form.password.text.is_empty());
    form.password.text = "public-response".into();
    let reaction = form.submit();
    assert!(form.password.text.is_empty());
    assert!(
        matches!(reaction.work, Some(Work::Auth(Request::PostAuthMessageResponse { response: Some(s) })) if s == "public-response")
    );

    respond(&mut form, prompt("Password:", true));
    let reaction = form.submit();
    assert!(form.password.text.is_empty());
    assert!(
        matches!(reaction.work, Some(Work::Auth(Request::PostAuthMessageResponse { response: Some(s) })) if s.is_empty())
    );

    respond(&mut form, prompt("Password:", true));
    form.password.text = "another-secret".into();
    assert!(form.submit().work.is_some());
    respond(
        &mut form,
        Response::AuthMessage {
            auth_message_type: AuthMessageType::Info,
            auth_message: "Notice".into(),
        },
    );
    assert!(form.password.text.is_empty());
    assert!(matches!(
        form.submit().work,
        Some(Work::Auth(Request::PostAuthMessageResponse {
            response: None
        }))
    ));

    respond(&mut form, prompt("Password:", true));
    form.password.text = "bad-password".into();
    assert!(form.submit().work.is_some());
    let reaction = respond(&mut form, error());
    assert!(form.password.text.is_empty());
    assert!(matches!(
        reaction.work,
        Some(Work::Auth(Request::CancelSession))
    ));
    respond(&mut form, Response::Success);
    assert!(form.password.sensitive);
    assert!(!form.pending_mask);

    for ending in [
        Step::Reset {
            message: String::new(),
        },
        Step::Finished,
        Step::Send(Request::CancelSession),
        Step::Fatal,
    ] {
        form.reset("");
        form.password.text = "secret".into();
        form.submit();
        assert!(form.pending_mask);
        form.apply(ending);
        assert!(form.password.text.is_empty());
        assert!(!form.pending_mask);
    }
}

#[test]
fn form_starts_empty() {
    let form = form(false);
    assert!(form.username.text.is_empty() && form.username.sensitive && form.username.visibility);
    assert!(form.password.text.is_empty() && form.password.sensitive && !form.password.visibility);
    assert_eq!(form.password.purpose, InputPurpose::Password);
    assert_eq!(form.password_label, "Password:");
    assert_eq!(form.message, "");
    assert_eq!(form.submit.label, "Log in");
    assert!(!form.submit.visible && form.submit.sensitive);
    assert_eq!(form.cancel.label, "Cancel");
    assert!(!form.cancel.visible && !form.cancel.sensitive);
    assert_eq!(form.reboot.label, "Reboot");
    assert_eq!(form.shutdown.label, "Shutdown");
    assert!(form.reboot.sensitive && form.shutdown.sensitive);
    assert!(form.connected && !form.busy && !form.challenge && !form.notice);
    assert!(!form.login.has_password());
}

#[test]
fn username_is_trimmed_and_needed() {
    let mut form = form(false);
    form.username.text = " \t\u{a0}".into();
    form.password.text = "kept".into();
    let reaction = form.submit();
    assert_eq!(reaction.focus, Some(Focus::Username));
    assert!(reaction.work.is_none());
    assert_eq!(form.password.text, "kept");
    assert!(!form.busy);
    form.username.text = " al ice\n".into();
    let reaction = form.submit();
    assert_eq!(reaction.focus, Some(Focus::Nowhere));
    assert!(
        matches!(reaction.work, Some(Work::Auth(Request::CreateSession { ref username })) if username == "al ice")
    );
    assert!(form.login.has_password());
    assert!(form.busy);
    assert!(!form.username.sensitive && !form.submit.sensitive);
    assert!(!form.reboot.sensitive && !form.shutdown.sensitive);
}

#[test]
fn session_of_the_options_is_started_and_the_greeter_leaves() {
    let mut form = form(false);
    log_in(&mut form);
    receive(&mut form, prompt("Password:", true));
    let reaction = receive(&mut form, Response::Success);
    assert!(
        matches!(reaction.work, Some(Work::Auth(Request::StartSession { ref cmd, ref env })) if cmd == &["/session"] && env.is_empty())
    );
    let reaction = receive(&mut form, Response::Success);
    assert!(reaction.quit);
    assert!(reaction.work.is_none() && reaction.focus.is_none());
}

#[test]
fn finished_demo_comes_back_to_the_form() {
    let mut form = form(true);
    log_in(&mut form);
    receive(&mut form, prompt("Password:", true));
    receive(&mut form, Response::Success);
    let reaction = receive(&mut form, Response::Success);
    assert!(!reaction.quit);
    assert_eq!(reaction.focus, Some(Focus::Username));
    assert_eq!(form.message, "Demo complete — no session was started.");
    assert!(form.password.text.is_empty() && !form.busy && form.username.sensitive);
}

#[test]
fn questions_shape_the_form() {
    let mut form = form(false);
    log_in(&mut form);
    let reaction = receive(&mut form, prompt("Account:", false));
    assert_eq!(reaction.focus, Some(Focus::Password));
    assert!(form.password.visibility);
    assert_eq!(form.password.purpose, InputPurpose::FreeForm);
    assert_eq!(form.password_label, "Account:");
    assert_eq!(form.submit.label, "Continue");
    assert_eq!(form.message, "");
    assert!(form.cancel.visible && form.cancel.sensitive && !form.submit.visible);
    assert!(!form.username.sensitive);
    form.submit();
    receive(&mut form, prompt("Verification code:", true));
    assert!(!form.password.visibility);
    assert_eq!(form.password.purpose, InputPurpose::Password);
    form.submit();
    let reaction = receive(
        &mut form,
        Response::AuthMessage {
            auth_message_type: AuthMessageType::Error,
            auth_message: "Expired".into(),
        },
    );
    assert_eq!(reaction.focus, Some(Focus::Submit));
    assert_eq!(form.message, "Expired");
    assert_eq!(form.password_label, "Verification code:");
    assert!(form.submit.visible && form.submit.sensitive && !form.password.sensitive);
    assert!(form.notice && form.challenge);
}

#[test]
fn failed_login_is_reset_once_cancelled() {
    let mut form = form(false);
    log_in(&mut form);
    assert!(matches!(
        receive(&mut form, error()).work,
        Some(Work::Auth(Request::CancelSession))
    ));
    assert!(!form.login.has_password() && form.password.text.is_empty() && form.busy);
    assert!(matches!(
        receive(&mut form, error()).work,
        Some(Work::Auth(Request::CancelSession))
    ));
    let reaction = receive(&mut form, Response::Success);
    assert_eq!(reaction.focus, Some(Focus::Username));
    assert_eq!(form.message, "Login failed. Check your username and password.");
    assert_eq!(form.password_label, "Password:");
    assert_eq!(form.submit.label, "Log in");
    assert!(!form.busy && form.username.sensitive && form.password.sensitive);
}

#[test]
fn giving_up_cancels_and_resets_without_a_message() {
    let mut form = form(false);
    log_in(&mut form);
    receive(&mut form, prompt("Verification code:", true));
    form.password.text = "12".into();
    assert!(matches!(
        form.give_up().work,
        Some(Work::Auth(Request::CancelSession))
    ));
    assert!(form.password.text.is_empty() && !form.login.has_password());
    receive(&mut form, Response::Success);
    assert_eq!(form.message, "");
    assert!(!form.challenge && !form.cancel.visible);
}

#[test]
fn lost_greetd_leaves_only_the_power_controls() {
    let mut form = form(false);
    log_in(&mut form);
    let reaction = form.receive(Event::Auth(Err(())));
    assert_eq!(reaction.focus, Some(Focus::Nowhere));
    assert!(reaction.work.is_none() && !reaction.quit);
    assert_eq!(
        form.message,
        "Login service unavailable. Use another console to recover."
    );
    assert!(!form.connected && !form.login.has_password() && form.password.text.is_empty());
    assert!(!form.username.sensitive && !form.password.sensitive && !form.submit.sensitive);
    assert!(form.reboot.sensitive && form.shutdown.sensitive);
    assert!(is_nothing(&log_in(&mut form)));
    form.power(PowerAction::Reboot);
    assert!(matches!(
        form.power(PowerAction::Reboot).work,
        Some(Work::Power(PowerAction::Reboot))
    ));
    form.receive(Event::Power(false));
    assert_eq!(form.message, "Power action was denied or failed.");
    assert!(!form.connected && !form.busy && !form.username.sensitive);
    assert!(is_nothing(&form.submit()));
}

#[test]
fn power_actions_need_two_presses() {
    let mut form = form(false);
    form.password.text = "typed".into();
    assert!(is_nothing(&form.power(PowerAction::Reboot)));
    assert_eq!(form.message, "Press Reboot again to confirm.");
    assert!(is_nothing(&form.power(PowerAction::Poweroff)));
    assert_eq!(form.message, "Press Shutdown again to confirm.");
    assert!(is_nothing(&form.power(PowerAction::Reboot)));
    let reaction = form.power(PowerAction::Reboot);
    assert_eq!(reaction.focus, Some(Focus::Nowhere));
    assert!(matches!(reaction.work, Some(Work::Power(PowerAction::Reboot))));
    assert!(form.busy && !form.reboot.sensitive);
    assert!(is_nothing(&form.receive(Event::Power(true))));
    assert_eq!(form.message, "Power action requested.");
    assert_eq!(form.password.text, "typed");
    assert!(!form.busy && form.reboot.sensitive);
    assert!(is_nothing(&form.power(PowerAction::Reboot)));
}

#[test]
fn submission_forgets_a_first_press() {
    let mut form = form(false);
    form.power(PowerAction::Poweroff);
    assert_eq!(form.power_confirm, Some(PowerAction::Poweroff));
    form.submit();
    assert_eq!(form.power_confirm, None);
    assert!(is_nothing(&form.power(PowerAction::Poweroff)));
}

#[test]
fn demo_power_is_reported_as_such() {
    let mut form = form(true);
    for accepted in [true, false] {
        form.receive(Event::Power(accepted));
        assert_eq!(form.message, "Demo only — no power action was performed.");
    }
}

#[test]
fn mask_tells_only_the_length() {
    assert_eq!(mask(""), "");
    assert_eq!(mask("abc"), "•••");
    assert_eq!(mask("é🔑e\u{301}"), "••••");
    let mut one = form(false);
    let mut other = form(false);
    one.username.text = "alice".into();
    other.username.text = "alice".into();
    one.password.text = "secret".into();
    other.password.text = "🔑🔑🔑🔑🔑🔑".into();
    one.submit();
    other.submit();
    assert_eq!(one.password.text, other.password.text);
}

#[test]
fn entry_is_emptied_in_place() {
    let mut form = form(false);
    form.password.text = "typed".into();
    form.pending_mask = true;
    form.clear_password();
    assert!(form.password.text.is_empty() && !form.pending_mask);
    form.password.text = "typed".into();
    form.busy(true);
    assert_eq!(form.password.text, "typed");
    assert_eq!(form.take_answer(), "typed");
    assert_eq!(form.password.text, "•••••");
    form.busy(false);
    assert!(form.password.text.is_empty());
}
