//! The command line of the greeter.
use vstd::prelude::*;

use crate::protocol::optional_text;
use crate::text::same;

verus! {

/// Printed on `--help`.
pub const USAGE: &'static str = "nixy-greeter [--demo] --session /absolute/session-launcher --systemctl /absolute/systemctl [--style path]";

/// Reported where `--session` comes last.
pub const MISSING_SESSION: &'static str = "Missing session executable";

/// Reported where `--systemctl` comes last.
pub const MISSING_SYSTEMCTL: &'static str = "Missing systemctl executable";

/// Reported where `--style` comes last.
pub const MISSING_STYLE: &'static str = "Missing stylesheet";

/// Reported for any other argument.
pub const UNKNOWN_ARGUMENT: &'static str = "Unknown argument; use --help";

/// Reported where a production greeter has no absolute executables.
pub const NOT_ABSOLUTE: &'static str = "Absolute --session and --systemctl executables are required";

/// Reported where a production greeter was not launched by greetd.
pub const SOCKET_MISSING: &'static str = "GREETD_SOCK is missing; launch through greetd or use --demo";

/// How the greeter runs.
#[derive(Debug)]
pub struct Options {
    /// Whether everything is simulated.
    pub demo: bool,
    /// The executable that starts the session.
    pub session: String,
    /// The executable for the power controls.
    pub systemctl: String,
    /// A stylesheet on top of the built-in one.
    pub style: Option<String>,
}

/// What the command line asks for.
pub enum Invocation {
    /// The greeter.
    Run(Options),
    /// The usage.
    Help,
}

/// What the options hold.
#[verifier::ext_equal]
pub struct OptionsView {
    pub demo: bool,
    pub session: Seq<char>,
    pub systemctl: Seq<char>,
    pub style: Option<Seq<char>>,
}

/// What an invocation holds.
#[verifier::ext_equal]
pub enum InvocationView {
    Run(OptionsView),
    Help,
}

impl View for Options {
    type V = OptionsView;

    open spec fn view(&self) -> OptionsView {
        OptionsView {
            demo: self.demo,
            session: self.session@,
            systemctl: self.systemctl@,
            style: optional_text(self.style),
        }
    }
}

impl View for Invocation {
    type V = InvocationView;

    open spec fn view(&self) -> InvocationView {
        match self {
            Invocation::Run(options) => InvocationView::Run(options@),
            Invocation::Help => InvocationView::Help,
        }
    }
}

/// An invocation, or the characters of the error in its place.
pub open spec fn invocation_view(
    result: Result<Invocation, String>,
) -> Result<InvocationView, Seq<char>> {
    match result {
        Ok(invocation) => Ok(invocation@),
        Err(error) => Err(error@),
    }
}

/// Whether a path starts at the root.
pub open spec fn is_absolute(path: Seq<char>) -> bool {
    path.len() > 0 && path[0] == '/'
}

impl OptionsView {
    /// The options of an empty command line.
    pub open spec fn unset() -> OptionsView {
        OptionsView { demo: false, session: Seq::empty(), systemctl: Seq::empty(), style: None }
    }

    /// Whether a greeter can run so: outside of a demo the executables are absolute.
    pub open spec fn complete(self) -> bool {
        self.demo || is_absolute(self.session) && is_absolute(self.systemctl)
    }
}

/// What the reading of one argument leads to.
pub enum Reading {
    /// Going on at an index with the options found so far.
    On(int, OptionsView),
    /// Asking for help.
    Help,
    /// An error.
    Wrong(Seq<char>),
}

/// Going on past the value of the argument with the given index, or the error
/// that there is none.
pub open spec fn valued(
    args: Seq<Seq<char>>,
    i: int,
    found: OptionsView,
    missing: Seq<char>,
) -> Reading {
    if i + 1 < args.len() {
        Reading::On(i + 2, found)
    } else {
        Reading::Wrong(missing)
    }
}

/// Reads the argument with the given index.
pub open spec fn read(args: Seq<Seq<char>>, i: int, found: OptionsView) -> Reading {
    let value = args[i + 1];
    if args[i] == "--demo"@ {
        Reading::On(i + 1, OptionsView { demo: true, ..found })
    } else if args[i] == "--session"@ {
        valued(args, i, OptionsView { session: value, ..found }, MISSING_SESSION@)
    } else if args[i] == "--systemctl"@ {
        valued(args, i, OptionsView { systemctl: value, ..found }, MISSING_SYSTEMCTL@)
    } else if args[i] == "--style"@ {
        valued(args, i, OptionsView { style: Some(value), ..found }, MISSING_STYLE@)
    } else if args[i] == "--help"@ {
        Reading::Help
    } else {
        Reading::Wrong(UNKNOWN_ARGUMENT@)
    }
}

/// What the arguments from the given index on ask for, after the earlier ones
/// gave the options found so far. The first request for help and the first
/// error end the reading.
pub open spec fn invoked(args: Seq<Seq<char>>, i: int, found: OptionsView) -> Result<
    InvocationView,
    Seq<char>,
>
    decreases args.len() - i,
{
    if i < args.len() {
        match read(args, i, found) {
            Reading::On(next, more) => invoked(args, next, more),
            Reading::Help => Ok(InvocationView::Help),
            Reading::Wrong(error) => Err(error),
        }
    } else if found.complete() {
        Ok(InvocationView::Run(found))
    } else {
        Err(NOT_ABSOLUTE@)
    }
}

/// Tells whether a path starts at the root.
fn starts_at_root(path: &String) -> (res: bool)
    ensures
        res == is_absolute(path@),
{
    let path = path.as_str();
    !path.is_empty() && path.get_char(0) == '/'
}

/// Reads the arguments that follow the name of the program.
pub fn options(args: &Vec<String>) -> (res: Result<Invocation, String>)
    ensures
        invocation_view(res) == invoked(args.deep_view(), 0, OptionsView::unset()),
{
    let ghost words = args.deep_view();
    let mut result = Options {
        demo: false,
        session: String::new(),
        systemctl: String::new(),
        style: None,
    };
    let mut i: usize = 0;
    while i < args.len()
        invariant
            words == args.deep_view(),
            i <= args.len(),
            invoked(words, i as int, result@) == invoked(words, 0, OptionsView::unset()),
        decreases args.len() - i,
    {
        let arg = &args[i];
        assert(words[i as int] == arg@);
        if same(arg, "--demo") {
            result.demo = true;
        } else if same(arg, "--session") {
            i = i + 1;
            if i == args.len() {
                return Err(MISSING_SESSION.to_string());
            }
            result.session = args[i].clone();
        } else if same(arg, "--systemctl") {
            i = i + 1;
            if i == args.len() {
                return Err(MISSING_SYSTEMCTL.to_string());
            }
            result.systemctl = args[i].clone();
        } else if same(arg, "--style") {
            i = i + 1;
            if i == args.len() {
                return Err(MISSING_STYLE.to_string());
            }
            result.style = Some(args[i].clone());
        } else if same(arg, "--help") {
            return Ok(Invocation::Help);
        } else {
            return Err(UNKNOWN_ARGUMENT.to_string());
        }
        i = i + 1;
    }
    if !result.demo && (!starts_at_root(&result.session) || !starts_at_root(&result.systemctl)) {
        return Err(NOT_ABSOLUTE.to_string());
    }
    Ok(Invocation::Run(result))
}

impl Options {
    /// Tells whether the greeter can start, given whether greetd left the path of
    /// its socket in the environment.
    pub fn check_socket(&self, present: bool) -> (res: Result<(), String>)
        ensures
            res is Ok <==> self@.demo || present,
            res matches Err(error) ==> error@ == SOCKET_MISSING@,
    {
        if !self.demo && !present {
            Err(SOCKET_MISSING.to_string())
        } else {
            Ok(())
        }
    }
}

/// A greeter that is asked for outside of a demo has absolute executables.
pub proof fn production_has_absolute_executables(
    args: Seq<Seq<char>>,
    i: int,
    found: OptionsView,
)
    ensures
        invoked(args, i, found) matches Ok(InvocationView::Run(options)) ==> options.complete(),
    decreases args.len() - i,
{
    if i < args.len() {
        if let Reading::On(next, more) = read(args, i, found) {
            production_has_absolute_executables(args, next, more);
        }
    }
}

/// Whether the value is the word behind an occurrence of the flag.
pub open spec fn follows(args: Seq<Seq<char>>, flag: Seq<char>, value: Seq<char>) -> bool {
    exists|k: int| 0 <= k < args.len() - 1 && #[trigger] args[k] == flag && args[k + 1] == value
}

proof fn values_stand_in_the_arguments(args: Seq<Seq<char>>, i: int, found: OptionsView)
    requires
        0 <= i,
    ensures
        invoked(args, i, found) matches Ok(InvocationView::Run(options)) ==> {
            &&& options.demo == found.demo || args.contains("--demo"@)
            &&& options.session == found.session || follows(args, "--session"@, options.session)
            &&& options.systemctl == found.systemctl || follows(
                args,
                "--systemctl"@,
                options.systemctl,
            )
            &&& options.style == found.style || options.style is Some && follows(
                args,
                "--style"@,
                options.style->0,
            )
        },
    decreases args.len() - i,
{
    if i < args.len() {
        if let Reading::On(next, more) = read(args, i, found) {
            values_stand_in_the_arguments(args, next, more);
            assert(args.contains(args[i]));
        }
    }
}

/// The options are words of the command line as they stand there: nothing
/// interprets them.
pub proof fn options_are_taken_verbatim(args: Seq<Seq<char>>)
    ensures
        invoked(args, 0, OptionsView::unset()) matches Ok(InvocationView::Run(options)) ==> {
            &&& options.demo ==> args.contains("--demo"@)
            &&& options.session.len() > 0 ==> follows(args, "--session"@, options.session)
            &&& options.systemctl.len() > 0 ==> follows(args, "--systemctl"@, options.systemctl)
            &&& options.style matches Some(style) ==> follows(args, "--style"@, style)
        },
{
    values_stand_in_the_arguments(args, 0, OptionsView::unset());
}

/// Whether a word is a flag that takes the word behind it as its value.
pub open spec fn takes_value(word: Seq<char>) -> bool {
    word == "--session"@ || word == "--systemctl"@ || word == "--style"@
}

/// Whether an index is one at which a flag is expected: the first, the one behind
/// `--demo` in such a place, and the one behind the value of a flag in such a
/// place.
pub open spec fn expects_flag(args: Seq<Seq<char>>, i: int) -> bool
    decreases i,
{
    ||| i == 0
    ||| i >= 1 && expects_flag(args, i - 1) && args[i - 1] == "--demo"@
    ||| i >= 2 && expects_flag(args, i - 2) && takes_value(args[i - 2])
}

/// Whether a flag stands at an index at which one is expected.
pub open spec fn flag_at(args: Seq<Seq<char>>, i: int, flag: Seq<char>) -> bool {
    0 <= i < args.len() && expects_flag(args, i) && args[i] == flag
}

/// Whether the value is the word behind the last occurrence of the flag.
pub open spec fn behind_last(args: Seq<Seq<char>>, flag: Seq<char>, value: Seq<char>) -> bool {
    exists|i: int|
        {
            &&& #[trigger] flag_at(args, i, flag)
            &&& i + 1 < args.len() && args[i + 1] == value
            &&& forall|k: int| i < k ==> !#[trigger] flag_at(args, k, flag)
        }
}

/// Whether the flag does not occur.
pub open spec fn unused(args: Seq<Seq<char>>, flag: Seq<char>) -> bool {
    forall|i: int| !#[trigger] flag_at(args, i, flag)
}

proof fn flags_differ()
    ensures
        "--demo"@ != "--session"@,
        "--demo"@ != "--systemctl"@,
        "--demo"@ != "--style"@,
        "--demo"@ != "--help"@,
        "--session"@ != "--systemctl"@,
        "--session"@ != "--style"@,
        "--session"@ != "--help"@,
        "--systemctl"@ != "--style"@,
        "--systemctl"@ != "--help"@,
        "--style"@ != "--help"@,
{
    reveal_strlit("--demo");
    reveal_strlit("--session");
    reveal_strlit("--systemctl");
    reveal_strlit("--style");
    reveal_strlit("--help");
    assert("--demo"@[2] == 'd' && "--help"@[2] == 'h');
    assert("--demo"@.len() == 6 && "--session"@.len() == 9 && "--systemctl"@.len() == 11);
    assert("--style"@.len() == 7 && "--help"@.len() == 6);
}

/// Between two places for a flag stand a flag that lets the reading go on, and its
/// value.
proof fn places_are_apart(args: Seq<Seq<char>>, p: int, j: int)
    requires
        0 <= p < j,
        expects_flag(args, p),
        expects_flag(args, j),
    ensures
        args[p] == "--demo"@ || takes_value(args[p]),
        takes_value(args[p]) ==> p + 2 <= j,
    decreases j,
{
    flags_differ();
    if expects_flag(args, j - 1) && args[j - 1] == "--demo"@ {
        if p < j - 1 {
            places_are_apart(args, p, j - 1);
        }
    } else {
        if p < j - 2 {
            places_are_apart(args, p, j - 2);
        } else if p == j - 1 {
            places_are_apart(args, j - 2, p);
        }
    }
}

impl OptionsView {
    /// Whether the options found are those of the flags before an index.
    spec fn gathered(self, args: Seq<Seq<char>>, n: int) -> bool {
        &&& self.demo <==> exists|i: int| i < n && #[trigger] flag_at(args, i, "--demo"@)
        &&& gathered_value(args, n, "--session"@, self.session)
        &&& gathered_value(args, n, "--systemctl"@, self.systemctl)
        &&& match self.style {
            Some(style) => last_before(args, n, "--style"@, style),
            None => forall|i: int| i < n ==> !#[trigger] flag_at(args, i, "--style"@),
        }
    }
}

spec fn last_before(args: Seq<Seq<char>>, n: int, flag: Seq<char>, value: Seq<char>) -> bool {
    exists|i: int|
        {
            &&& #[trigger] flag_at(args, i, flag)
            &&& i + 1 < args.len() && args[i + 1] == value
            &&& i < n
            &&& forall|k: int| i < k < n ==> !#[trigger] flag_at(args, k, flag)
        }
}

spec fn gathered_value(args: Seq<Seq<char>>, n: int, flag: Seq<char>, value: Seq<char>) -> bool {
    ||| last_before(args, n, flag, value)
    ||| value == Seq::<char>::empty() && forall|i: int| i < n ==> !#[trigger] flag_at(
        args,
        i,
        flag,
    )
}

/// The flag at an index is the only one up to the next place for a flag.
proof fn value_is_kept(
    args: Seq<Seq<char>>,
    p: int,
    next: int,
    flag: Seq<char>,
    value: Seq<char>,
)
    requires
        0 <= p < next,
        expects_flag(args, p),
        args[p] != flag,
        next == p + 1 || takes_value(args[p]) && next == p + 2,
    ensures
        gathered_value(args, p, flag, value) ==> gathered_value(args, next, flag, value),
        last_before(args, p, flag, value) ==> last_before(args, next, flag, value),
        (forall|i: int| i < p ==> !#[trigger] flag_at(args, i, flag)) ==> forall|i: int|
            i < next ==> !#[trigger] flag_at(args, i, flag),
{
    assert forall|k: int| p <= k < next implies !#[trigger] flag_at(args, k, flag) by {
        if k > p && flag_at(args, k, flag) {
            places_are_apart(args, p, k);
        }
    }
    if last_before(args, p, flag, value) {
        let i = choose|i: int|
            {
                &&& #[trigger] flag_at(args, i, flag)
                &&& i + 1 < args.len() && args[i + 1] == value
                &&& i < p
                &&& forall|k: int| i < k < p ==> !#[trigger] flag_at(args, k, flag)
            };
        assert(flag_at(args, i, flag));
    }
}

proof fn value_is_taken(args: Seq<Seq<char>>, p: int)
    requires
        0 <= p,
        p + 1 < args.len(),
        expects_flag(args, p),
        takes_value(args[p]),
    ensures
        last_before(args, p + 2, args[p], args[p + 1]),
{
    assert(flag_at(args, p, args[p]));
    assert forall|k: int| p < k < p + 2 implies !#[trigger] flag_at(args, k, args[p]) by {
        if flag_at(args, k, args[p]) {
            places_are_apart(args, p, k);
        }
    }
}

proof fn demo_is_kept(args: Seq<Seq<char>>, p: int, next: int)
    requires
        0 <= p < next,
        p < args.len(),
        expects_flag(args, p),
        next == p + 1 && args[p] == "--demo"@ || takes_value(args[p]) && next == p + 2,
    ensures
        (exists|i: int| i < next && #[trigger] flag_at(args, i, "--demo"@)) <==> args[p]
            == "--demo"@ || exists|i: int| i < p && #[trigger] flag_at(args, i, "--demo"@),
{
    flags_differ();
    if args[p] == "--demo"@ {
        assert(flag_at(args, p, "--demo"@));
    }
    if exists|i: int| i < next && #[trigger] flag_at(args, i, "--demo"@) {
        let i = choose|i: int| i < next && #[trigger] flag_at(args, i, "--demo"@);
        if i > p {
            places_are_apart(args, p, i);
        }
        assert(flag_at(args, i, "--demo"@));
    }
}

proof fn gathering_goes_on(args: Seq<Seq<char>>, p: int, found: OptionsView)
    requires
        0 <= p < args.len(),
        expects_flag(args, p),
        found.gathered(args, p),
        read(args, p, found) is On,
    ensures
        ({
            let (next, more) = (read(args, p, found)->On_0, read(args, p, found)->On_1);
            &&& p < next <= args.len()
            &&& expects_flag(args, next)
            &&& more.gathered(args, next)
            &&& args[p] == "--demo"@ ==> next == p + 1
            &&& takes_value(args[p]) ==> next == p + 2
            &&& args[p] == "--demo"@ || takes_value(args[p])
        }),
{
    flags_differ();
    let (next, more) = (read(args, p, found)->On_0, read(args, p, found)->On_1);
    demo_is_kept(args, p, next);
    if args[p] != "--session"@ {
        value_is_kept(args, p, next, "--session"@, found.session);
    }
    if args[p] != "--systemctl"@ {
        value_is_kept(args, p, next, "--systemctl"@, found.systemctl);
    }
    if args[p] != "--style"@ {
        value_is_kept(args, p, next, "--style"@, found.style.unwrap_or(Seq::empty()));
    }
    if takes_value(args[p]) {
        value_is_taken(args, p);
    }
}

/// Where the reading of a command line ends.
proof fn reading_ends(args: Seq<Seq<char>>, p: int, found: OptionsView) -> (r: (int, OptionsView))
    requires
        0 <= p <= args.len(),
        expects_flag(args, p),
        found.gathered(args, p),
    ensures
        p <= r.0 <= args.len(),
        expects_flag(args, r.0),
        r.1.gathered(args, r.0),
        invoked(args, p, found) == invoked(args, r.0, r.1),
        r.0 == args.len() || !(read(args, r.0, r.1) is On),
    decreases args.len() - p,
{
    if p < args.len() && read(args, p, found) is On {
        gathering_goes_on(args, p, found);
        let (next, more) = (read(args, p, found)->On_0, read(args, p, found)->On_1);
        reading_ends(args, next, more)
    } else {
        (p, found)
    }
}

/// Nothing behind the place at which the reading ends is a place for a flag.
proof fn nothing_follows(args: Seq<Seq<char>>, e: int, k: int, found: OptionsView)
    requires
        0 <= e <= args.len(),
        expects_flag(args, e),
        e == args.len() || !(read(args, e, found) is On),
        e < k,
    ensures
        k < args.len() ==> !expects_flag(args, k),
        e < args.len() && k == args.len() ==> !expects_flag(args, k),
{
    if k <= args.len() && expects_flag(args, k) {
        places_are_apart(args, e, k);
    }
}

/// What a command line asks for, by the places at which a flag is expected.
///
/// `--help` in such a place, and only that, asks for help. A word that is no flag
/// in such a place, and a flag without the value that it takes, are errors of
/// their own. A command line that is all flags and values gives a greeter just
/// where it is a demo or both executables are absolute.
pub proof fn command_line_decides(args: Seq<Seq<char>>)
    ensures
        ({
            let result = invoked(args, 0, OptionsView::unset());
            let n = args.len() as int;
            &&& result == Ok::<InvocationView, Seq<char>>(InvocationView::Help) <==> exists|i: int|
                #[trigger] flag_at(args, i, "--help"@)
            &&& result == Err::<InvocationView, Seq<char>>("Unknown argument; use --help"@)
                <==> exists|i: int|
                {
                    &&& 0 <= i < n
                    &&& #[trigger] expects_flag(args, i)
                    &&& args[i] != "--demo"@ && args[i] != "--help"@ && !takes_value(args[i])
                }
            &&& result == Err::<InvocationView, Seq<char>>("Missing session executable"@)
                <==> flag_at(args, n - 1, "--session"@)
            &&& result == Err::<InvocationView, Seq<char>>("Missing systemctl executable"@)
                <==> flag_at(args, n - 1, "--systemctl"@)
            &&& result == Err::<InvocationView, Seq<char>>("Missing stylesheet"@)
                <==> flag_at(args, n - 1, "--style"@)
            &&& expects_flag(args, n) <==> {
                ||| result == Err::<InvocationView, Seq<char>>(
                    "Absolute --session and --systemctl executables are required"@,
                )
                ||| result matches Ok(InvocationView::Run(_))
            }
        }),
{
    flags_differ();
    errors_differ();
    let n = args.len() as int;
    let unset = OptionsView::unset();
    assert(unset.gathered(args, 0));
    let (e, found) = reading_ends(args, 0, unset);
    let result = invoked(args, 0, unset);
    assert(result == invoked(args, e, found));
    // The reading ends at the last place for a flag.
    assert forall|i: int| 0 <= i < e && expects_flag(args, i) implies args[i] == "--demo"@
        || takes_value(args[i]) && i + 2 <= e by {
        places_are_apart(args, i, e);
    }
    assert forall|i: int| e < i <= n && i != e implies !(i < n && #[trigger] expects_flag(args, i))
        && !(i == n && e < n && expects_flag(args, i)) by {
        nothing_follows(args, e, i, found);
    }
    if e < n {
        assert(expects_flag(args, e));
        assert(args[e] == "--help"@ ==> flag_at(args, e, "--help"@));
    }
    assert forall|i: int| #[trigger] flag_at(args, i, "--help"@) implies i == e by {
        if i < e {
            places_are_apart(args, i, e);
        } else if i > e {
            nothing_follows(args, e, i, found);
        }
    }
    assert forall|i: int, flag: Seq<char>|
        i == n - 1 && takes_value(flag) && #[trigger] flag_at(args, i, flag) implies i == e by {
        if i < e {
            places_are_apart(args, i, e);
        } else if i > e {
            nothing_follows(args, e, i, found);
        }
    }
    if n > 0 && e == n - 1 {
        assert(args[e] == "--session"@ ==> flag_at(args, n - 1, "--session"@));
        assert(args[e] == "--systemctl"@ ==> flag_at(args, n - 1, "--systemctl"@));
        assert(args[e] == "--style"@ ==> flag_at(args, n - 1, "--style"@));
    }
}

/// The errors of the command line can be told apart.
proof fn errors_differ()
    ensures
        UNKNOWN_ARGUMENT@ != MISSING_SESSION@,
        UNKNOWN_ARGUMENT@ != MISSING_SYSTEMCTL@,
        UNKNOWN_ARGUMENT@ != MISSING_STYLE@,
        UNKNOWN_ARGUMENT@ != NOT_ABSOLUTE@,
        MISSING_SESSION@ != MISSING_SYSTEMCTL@,
        MISSING_SESSION@ != MISSING_STYLE@,
        MISSING_SESSION@ != NOT_ABSOLUTE@,
        MISSING_SYSTEMCTL@ != MISSING_STYLE@,
        MISSING_SYSTEMCTL@ != NOT_ABSOLUTE@,
        MISSING_STYLE@ != NOT_ABSOLUTE@,
{
    reveal_strlit("Unknown argument; use --help");
    reveal_strlit("Missing session executable");
    reveal_strlit("Missing systemctl executable");
    reveal_strlit("Missing stylesheet");
    reveal_strlit("Absolute --session and --systemctl executables are required");
    assert(UNKNOWN_ARGUMENT@[0] == 'U');
    assert(NOT_ABSOLUTE@[0] == 'A');
    assert(MISSING_SESSION@[0] == 'M' && MISSING_SYSTEMCTL@[0] == 'M' && MISSING_STYLE@[0] == 'M');
    assert(MISSING_SESSION@.len() == 26 && MISSING_SYSTEMCTL@.len() == 28);
    assert(MISSING_STYLE@.len() == 18);
}

/// Each option of a greeter comes from the last occurrence of its flag, wherever
/// in the command line that stands, and is unset without one. The order of
/// different flags does not matter.
pub proof fn last_occurrence_of_a_flag_counts(args: Seq<Seq<char>>)
    ensures
        invoked(args, 0, OptionsView::unset()) matches Ok(InvocationView::Run(options)) ==> {
            &&& options.demo <==> !unused(args, "--demo"@)
            &&& unused(args, "--session"@) ==> options.session.len() == 0
            &&& !unused(args, "--session"@) ==> behind_last(
                args,
                "--session"@,
                options.session,
            )
            &&& unused(args, "--systemctl"@) ==> options.systemctl.len() == 0
            &&& !unused(args, "--systemctl"@) ==> behind_last(
                args,
                "--systemctl"@,
                options.systemctl,
            )
            &&& unused(args, "--style"@) ==> options.style is None
            &&& !unused(args, "--style"@) ==> options.style is Some && behind_last(
                args,
                "--style"@,
                options.style->0,
            )
            &&& options.demo || {
                &&& options.session.len() > 0 && options.session[0] == '/'
                &&& options.systemctl.len() > 0 && options.systemctl[0] == '/'
            }
        },
{
    flags_differ();
    let n = args.len() as int;
    let unset = OptionsView::unset();
    assert(unset.gathered(args, 0));
    let (e, found) = reading_ends(args, 0, unset);
    if let Ok(InvocationView::Run(run)) = invoked(args, 0, unset) {
        assert(e == n);
        assert(run == found);
        last_of_all(args, "--session"@, run.session);
        last_of_all(args, "--systemctl"@, run.systemctl);
        if run.style is Some {
            last_of_all(args, "--style"@, run.style->0);
        }
    }
}

proof fn last_of_all(args: Seq<Seq<char>>, flag: Seq<char>, value: Seq<char>)
    ensures
        last_before(args, args.len() as int, flag, value) ==> behind_last(args, flag, value)
            && !unused(args, flag),
{
    let n = args.len() as int;
    if last_before(args, n, flag, value) {
        let i = choose|i: int|
            {
                &&& #[trigger] flag_at(args, i, flag)
                &&& i + 1 < args.len() && args[i + 1] == value
                &&& i < n
                &&& forall|k: int| i < k < n ==> !#[trigger] flag_at(args, k, flag)
            };
        assert(flag_at(args, i, flag));
        assert forall|k: int| i < k implies !#[trigger] flag_at(args, k, flag) by {}
    }
}

/// A command line that is all flags and values, for a demo or with two absolute
/// executables behind the last occurrences of their flags, is accepted.
pub proof fn complete_command_line_is_accepted(
    args: Seq<Seq<char>>,
    session: Seq<char>,
    systemctl: Seq<char>,
)
    requires
        expects_flag(args, args.len() as int),
        !unused(args, "--demo"@) || {
            &&& behind_last(args, "--session"@, session)
            &&& session.len() > 0 && session[0] == '/'
            &&& behind_last(args, "--systemctl"@, systemctl)
            &&& systemctl.len() > 0 && systemctl[0] == '/'
        },
    ensures
        invoked(args, 0, OptionsView::unset()) matches Ok(InvocationView::Run(_)),
{
    flags_differ();
    let n = args.len() as int;
    let unset = OptionsView::unset();
    assert(unset.gathered(args, 0));
    let (e, found) = reading_ends(args, 0, unset);
    if e < n {
        places_are_apart(args, e, n);
        assert(false);
    }
    if !unused(args, "--demo"@) {
        assert(found.demo);
    } else {
        last_is_gathered(args, "--session"@, session, found.session);
        last_is_gathered(args, "--systemctl"@, systemctl, found.systemctl);
    }
}

proof fn last_is_gathered(
    args: Seq<Seq<char>>,
    flag: Seq<char>,
    value: Seq<char>,
    found: Seq<char>,
)
    requires
        behind_last(args, flag, value),
        gathered_value(args, args.len() as int, flag, found),
    ensures
        found == value,
{
    let n = args.len() as int;
    let i = choose|i: int|
        {
            &&& #[trigger] flag_at(args, i, flag)
            &&& i + 1 < args.len() && args[i + 1] == value
            &&& forall|k: int| i < k ==> !#[trigger] flag_at(args, k, flag)
        };
    assert(flag_at(args, i, flag));
    let j = choose|j: int|
        {
            &&& #[trigger] flag_at(args, j, flag)
            &&& j + 1 < args.len() && args[j + 1] == found
            &&& j < n
            &&& forall|k: int| j < k < n ==> !#[trigger] flag_at(args, k, flag)
        };
    assert(flag_at(args, j, flag));
    assert(i == j);
}

/// Options and what a command line asks for are what they read: each part shows in
/// the view.
pub proof fn options_show_their_parts(options: Options, result: Result<Invocation, String>)
    ensures
        options@.demo == options.demo,
        options@.session == options.session@,
        options@.systemctl == options.systemctl@,
        options.style is None ==> options@.style is None,
        options.style matches Some(style) ==> options@.style == Some(style@),
        match result {
            Ok(Invocation::Run(asked)) => invocation_view(result) == Ok::<
                InvocationView,
                Seq<char>,
            >(InvocationView::Run(asked@)),
            Ok(Invocation::Help) => invocation_view(result) == Ok::<InvocationView, Seq<char>>(
                InvocationView::Help,
            ),
            Err(error) => invocation_view(result) == Err::<InvocationView, Seq<char>>(error@),
        },
{
}

/// The usage names the flags and the values that they take.
pub proof fn usage_names_the_flags()
    ensures
        USAGE@
            == "nixy-greeter [--demo] --session /absolute/session-launcher --systemctl /absolute/systemctl [--style path]"@,
{
}

} // verus!
