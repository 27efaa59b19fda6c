use nixy_greeter::options::{options, Invocation, Options, USAGE};

fn parse(args: &[&str]) -> Result<Invocation, String> {
    let args: Vec<String> = args.iter().map(|arg| arg.to_string()).collect();
    options(&args)
}

fn run(args: &[&str]) -> Options {
    match parse(args) {
        Ok(Invocation::Run(options)) => options,
        _ => panic!("not accepted"),
    }
}

fn error(args: &[&str]) -> String {
    match parse(args) {
        Err(error) => error,
        Ok(_) => panic!("accepted"),
    }
}

#[test]
fn production_options_are_taken_verbatim() {
    let o = run(&["--session", "/run me; now", "--systemctl", "/bin/systemctl"]);
    assert!(!o.demo);
    assert_eq!(o.session, "/run me; now");
    assert_eq!(o.systemctl, "/bin/systemctl");
    assert_eq!(o.style, None);
    let o = run(&[
        "--style", "a.css", "--session", "/a", "--systemctl", "/b", "--session", "/c",
    ]);
    assert_eq!(o.session, "/c");
    assert_eq!(o.style.as_deref(), Some("a.css"));
}

#[test]
fn demo_needs_no_executables() {
    let o = run(&["--demo"]);
    assert!(o.demo);
    assert_eq!(o.session, "");
    assert_eq!(o.systemctl, "");
    let o = run(&["--session", "relative", "--demo"]);
    assert_eq!(o.session, "relative");
}

#[test]
fn production_needs_absolute_executables() {
    let message = "Absolute --session and --systemctl executables are required";
    assert_eq!(error(&[]), message);
    assert_eq!(error(&["--session", "/a"]), message);
    assert_eq!(error(&["--systemctl", "/a"]), message);
    assert_eq!(error(&["--session", "a", "--systemctl", "/b"]), message);
    assert_eq!(error(&["--session", "/a", "--systemctl", "b/c"]), message);
    assert_eq!(error(&["--session", "", "--systemctl", "/b"]), message);
}

#[test]
fn missing_values_and_unknown_arguments_are_reported() {
    assert_eq!(error(&["--session"]), "Missing session executable");
    assert_eq!(error(&["--demo", "--systemctl"]), "Missing systemctl executable");
    assert_eq!(error(&["--style"]), "Missing stylesheet");
    assert_eq!(error(&["--verbose"]), "Unknown argument; use --help");
    assert_eq!(error(&["--Demo"]), "Unknown argument; use --help");
    assert_eq!(error(&["--demo", "extra", "--help"]), "Unknown argument; use --help");
}

#[test]
fn help_ends_the_reading() {
    assert!(matches!(parse(&["--help"]), Ok(Invocation::Help)));
    assert!(matches!(parse(&["--demo", "--help", "--bogus"]), Ok(Invocation::Help)));
    assert_eq!(run(&["--demo", "--style", "--help"]).style.as_deref(), Some("--help"));
    assert!(USAGE.starts_with("nixy-greeter "));
}

#[test]
fn production_needs_the_socket_of_greetd() {
    let production = run(&["--session", "/a", "--systemctl", "/b"]);
    assert_eq!(
        production.check_socket(false),
        Err("GREETD_SOCK is missing; launch through greetd or use --demo".to_string())
    );
    assert_eq!(production.check_socket(true), Ok(()));
    assert_eq!(run(&["--demo"]).check_socket(false), Ok(()));
}
