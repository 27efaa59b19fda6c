//! Text comparisons of the login policy.
use vstd::prelude::*;

verus! {

/// The characters with the Unicode property `White_Space`.
pub open spec fn is_white_space(c: char) -> bool {
    ||| '\u{9}' <= c <= '\u{d}'
    ||| c == ' '
    ||| c == '\u{85}'
    ||| c == '\u{a0}'
    ||| c == '\u{1680}'
    ||| '\u{2000}' <= c <= '\u{200a}'
    ||| c == '\u{2028}'
    ||| c == '\u{2029}'
    ||| c == '\u{202f}'
    ||| c == '\u{205f}'
    ||| c == '\u{3000}'
}

/// A text without its leading white space.
pub open spec fn trim_start(s: Seq<char>) -> Seq<char>
    decreases s.len(),
{
    if s.len() > 0 && is_white_space(s.first()) {
        trim_start(s.drop_first())
    } else {
        s
    }
}

/// A text without its trailing white space.
pub open spec fn trim_end(s: Seq<char>) -> Seq<char>
    decreases s.len(),
{
    if s.len() > 0 && is_white_space(s.last()) {
        trim_end(s.drop_last())
    } else {
        s
    }
}

/// A text without the white space at both of its ends.
pub open spec fn trimmed(s: Seq<char>) -> Seq<char> {
    trim_end(trim_start(s))
}

proof fn start_is_trimmed(s: Seq<char>) -> (lead: Seq<char>)
    ensures
        s == lead + trim_start(s),
        forall|i: int| 0 <= i < lead.len() ==> is_white_space(#[trigger] lead[i]),
        trim_start(s).len() > 0 ==> !is_white_space(trim_start(s).first()),
    decreases s.len(),
{
    if s.len() > 0 && is_white_space(s.first()) {
        let rest = s.drop_first();
        let lead_of_rest = start_is_trimmed(rest);
        let lead = seq![s.first()] + lead_of_rest;
        assert(s =~= seq![s.first()] + rest);
        assert(s =~= lead + trim_start(s));
        lead
    } else {
        assert(s =~= Seq::empty() + s);
        Seq::empty()
    }
}

proof fn end_is_trimmed(s: Seq<char>) -> (tail: Seq<char>)
    ensures
        s == trim_end(s) + tail,
        forall|i: int| 0 <= i < tail.len() ==> is_white_space(#[trigger] tail[i]),
        trim_end(s).len() > 0 ==> !is_white_space(trim_end(s).last()),
    decreases s.len(),
{
    if s.len() > 0 && is_white_space(s.last()) {
        let tail_of_rest = end_is_trimmed(s.drop_last());
        let tail = tail_of_rest.push(s.last());
        assert(s =~= s.drop_last().push(s.last()));
        assert(s =~= trim_end(s) + tail);
        tail
    } else {
        assert(s =~= s + Seq::empty());
        Seq::empty()
    }
}

/// Trimming takes white space away at both ends, and nothing else: what is left
/// stands in the text as it is, and neither starts nor ends with white space.
pub proof fn trimming_takes_only_white_space(s: Seq<char>)
    ensures
        exists|lead: Seq<char>, tail: Seq<char>|
            {
                &&& s == #[trigger] (lead + trimmed(s) + tail)
                &&& forall|i: int| 0 <= i < lead.len() ==> is_white_space(#[trigger] lead[i])
                &&& forall|i: int| 0 <= i < tail.len() ==> is_white_space(#[trigger] tail[i])
            },
        trimmed(s).len() > 0 ==> {
            &&& !is_white_space(trimmed(s).first())
            &&& !is_white_space(trimmed(s).last())
        },
{
    let lead = start_is_trimmed(s);
    let tail = end_is_trimmed(trim_start(s));
    assert(s =~= lead + trimmed(s) + tail);
    if trimmed(s).len() > 0 {
        assert(trimmed(s).first() == trim_start(s).first());
    }
}

/// A character with an ASCII capital letter made small.
pub open spec fn ascii_lower(c: char) -> char {
    if 'A' <= c <= 'Z' {
        ((c as int) + 32) as char
    } else {
        c
    }
}

/// Two texts that differ at most in the case of ASCII letters.
pub open spec fn same_ignoring_ascii_case(a: Seq<char>, b: Seq<char>) -> bool {
    a.map_values(|c: char| ascii_lower(c)) == b.map_values(|c: char| ascii_lower(c))
}

/// `str::trim` removes the leading and trailing characters that have the
/// Unicode property `White_Space`.
pub assume_specification[ str::trim ](s: &str) -> (res: &str)
    ensures
        res@ == trimmed(s@),
;

/// `str::eq_ignore_ascii_case` tells whether the two strings are the same once
/// ASCII capital letters are made small in both.
pub assume_specification[ str::eq_ignore_ascii_case ](s: &str, other: &str) -> (res: bool)
    ensures
        res == same_ignoring_ascii_case(s@, other@),
;

/// The text of the conventional challenge for the password, in small letters.
pub open spec fn password_challenge() -> Seq<char> {
    "password:"@
}

/// Whether a challenge is the conventional one for the password: it reads
/// `Password:` in any case of letters, with or without white space around it.
pub open spec fn asks_for_password(challenge: Seq<char>) -> bool {
    same_ignoring_ascii_case(trimmed(challenge), password_challenge())
}

/// White space by code point.
pub proof fn white_space_by_code_point(c: char)
    ensures
        is_white_space(c) <==> {
            let code = c as int;
            ||| 0x9 <= code <= 0xd || code == 0x20 || code == 0x85 || code == 0xa0
            ||| code == 0x1680 || 0x2000 <= code <= 0x200a || code == 0x2028 || code == 0x2029
            ||| code == 0x202f || code == 0x205f || code == 0x3000
        },
{
}

proof fn start_skips_white_space(lead: Seq<char>, rest: Seq<char>)
    requires
        forall|i: int| 0 <= i < lead.len() ==> is_white_space(#[trigger] lead[i]),
        rest.len() > 0 ==> !is_white_space(rest.first()),
    ensures
        trim_start(lead + rest) == rest,
    decreases lead.len(),
{
    let s = lead + rest;
    if lead.len() > 0 {
        assert(s.first() == lead[0]);
        assert(s.drop_first() =~= lead.drop_first() + rest);
        start_skips_white_space(lead.drop_first(), rest);
    } else {
        assert(s =~= rest);
    }
}

proof fn end_skips_white_space(rest: Seq<char>, tail: Seq<char>)
    requires
        forall|i: int| 0 <= i < tail.len() ==> is_white_space(#[trigger] tail[i]),
        rest.len() > 0 ==> !is_white_space(rest.last()),
    ensures
        trim_end(rest + tail) == rest,
    decreases tail.len(),
{
    let s = rest + tail;
    if tail.len() > 0 {
        assert(s.last() == tail[tail.len() - 1]);
        assert(s.drop_last() =~= rest + tail.drop_last());
        end_skips_white_space(rest, tail.drop_last());
    } else {
        assert(s =~= rest);
    }
}

proof fn blank_is_trimmed_away(s: Seq<char>)
    requires
        forall|i: int| 0 <= i < s.len() ==> is_white_space(#[trigger] s[i]),
    ensures
        trim_start(s) == Seq::<char>::empty(),
{
    assert(s =~= s + Seq::empty());
    start_skips_white_space(s, Seq::empty());
}

/// White space around a text is all that trimming takes away: what stands between
/// it comes out, wherever it neither starts nor ends with white space.
pub proof fn trimming_undoes_padding(lead: Seq<char>, core: Seq<char>, tail: Seq<char>)
    requires
        forall|i: int| 0 <= i < lead.len() ==> is_white_space(#[trigger] lead[i]),
        forall|i: int| 0 <= i < tail.len() ==> is_white_space(#[trigger] tail[i]),
        core.len() > 0 ==> !is_white_space(core.first()) && !is_white_space(core.last()),
    ensures
        trimmed(lead + core + tail) == core,
{
    if core.len() > 0 {
        assert(lead + core + tail =~= lead + (core + tail));
        assert((core + tail).first() == core.first());
        start_skips_white_space(lead, core + tail);
        end_skips_white_space(core, tail);
    } else {
        let blank = lead + core + tail;
        assert forall|i: int| 0 <= i < blank.len() implies is_white_space(
            #[trigger] blank[i],
        ) by {
            if i >= lead.len() {
                assert(blank[i] == tail[i - lead.len()]);
            } else {
                assert(blank[i] == lead[i]);
            }
        }
        blank_is_trimmed_away(blank);
        assert(core =~= Seq::empty());
    }
}

/// Two texts are the same up to the case of ASCII letters just where they are
/// equally long and each two characters are equal, or are the capital and the
/// small form of one ASCII letter.
pub proof fn only_the_case_of_ascii_letters_is_ignored(a: Seq<char>, b: Seq<char>)
    ensures
        same_ignoring_ascii_case(a, b) <==> {
            &&& a.len() == b.len()
            &&& forall|i: int|
                0 <= i < a.len() ==> {
                    ||| #[trigger] a[i] == b[i]
                    ||| 'A' <= a[i] <= 'Z' && b[i] as int == a[i] as int + 32
                    ||| 'A' <= b[i] <= 'Z' && a[i] as int == b[i] as int + 32
                }
        },
{
    let low_a = a.map_values(|c: char| ascii_lower(c));
    let low_b = b.map_values(|c: char| ascii_lower(c));
    if same_ignoring_ascii_case(a, b) {
        assert(low_a.len() == a.len() && low_b.len() == b.len());
        assert forall|i: int| 0 <= i < a.len() implies {
            ||| #[trigger] a[i] == b[i]
            ||| 'A' <= a[i] <= 'Z' && b[i] as int == a[i] as int + 32
            ||| 'A' <= b[i] <= 'Z' && a[i] as int == b[i] as int + 32
        } by {
            assert(low_a[i] == ascii_lower(a[i]));
            assert(low_b[i] == ascii_lower(b[i]));
        }
    } else if a.len() == b.len() && forall|i: int|
        0 <= i < a.len() ==> {
            ||| #[trigger] a[i] == b[i]
            ||| 'A' <= a[i] <= 'Z' && b[i] as int == a[i] as int + 32
            ||| 'A' <= b[i] <= 'Z' && a[i] as int == b[i] as int + 32
        } {
        assert forall|i: int| 0 <= i < a.len() implies low_a[i] == low_b[i] by {
            assert(a[i] == a[i]);
            assert(ascii_lower(a[i]) == ascii_lower(b[i]));
        }
        assert(low_a =~= low_b);
    }
}

/// Whether the word `password:` stands at an index of a text, in any case of
/// letters.
pub open spec fn password_stands_at(text: Seq<char>, i: int) -> bool {
    &&& 0 <= i <= text.len() - 9
    &&& text[i] == 'p' || text[i] == 'P'
    &&& text[i + 1] == 'a' || text[i + 1] == 'A'
    &&& text[i + 2] == 's' || text[i + 2] == 'S'
    &&& text[i + 3] == 's' || text[i + 3] == 'S'
    &&& text[i + 4] == 'w' || text[i + 4] == 'W'
    &&& text[i + 5] == 'o' || text[i + 5] == 'O'
    &&& text[i + 6] == 'r' || text[i + 6] == 'R'
    &&& text[i + 7] == 'd' || text[i + 7] == 'D'
    &&& text[i + 8] == ':'
}

proof fn nine_letters(text: Seq<char>)
    ensures
        same_ignoring_ascii_case(text, password_challenge()) <==> text.len() == 9
            && password_stands_at(text, 0),
{
    reveal_strlit("password:");
    let word = password_challenge();
    only_the_case_of_ascii_letters_is_ignored(text, word);
    if text.len() == 9 && password_stands_at(text, 0) {
        assert forall|i: int| 0 <= i < text.len() implies {
            ||| #[trigger] text[i] == word[i]
            ||| 'A' <= text[i] <= 'Z' && word[i] as int == text[i] as int + 32
            ||| 'A' <= word[i] <= 'Z' && text[i] as int == word[i] as int + 32
        } by {
            assert(i == 0 || i == 1 || i == 2 || i == 3 || i == 4 || i == 5 || i == 6 || i == 7
                || i == 8);
        }
    }
    if same_ignoring_ascii_case(text, word) {
        assert(text[0] == text[0] && text[1] == text[1] && text[2] == text[2]);
        assert(text[3] == text[3] && text[4] == text[4] && text[5] == text[5]);
        assert(text[6] == text[6] && text[7] == text[7] && text[8] == text[8]);
    }
}

/// A challenge asks for the password just where it is, without the white space at
/// its ends, the nine characters of `password:` in any case of letters.
pub proof fn password_challenge_letter_by_letter(challenge: Seq<char>)
    ensures
        asks_for_password(challenge) <==> trimmed(challenge).len() == 9 && password_stands_at(
            trimmed(challenge),
            0,
        ),
{
    nine_letters(trimmed(challenge));
}

/// A challenge asks for the password just where the word `password:` stands in it,
/// in any case of letters, and everything before and behind that is white space.
pub proof fn password_challenge_is_the_word_alone(challenge: Seq<char>)
    ensures
        asks_for_password(challenge) <==> exists|i: int|
            {
                &&& #[trigger] password_stands_at(challenge, i)
                &&& forall|k: int|
                    0 <= k < challenge.len() && (k < i || k >= i + 9) ==> is_white_space(
                        #[trigger] challenge[k],
                    )
            },
{
    nine_letters(trimmed(challenge));
    if asks_for_password(challenge) {
        let lead = start_is_trimmed(challenge);
        let tail = end_is_trimmed(trim_start(challenge));
        let core = trimmed(challenge);
        let i = lead.len() as int;
        assert(challenge =~= lead + core + tail);
        assert(password_stands_at(challenge, i));
        assert forall|k: int| 0 <= k < challenge.len() && (k < i || k >= i + 9) implies
            is_white_space(#[trigger] challenge[k]) by {
            if k < i {
                assert(challenge[k] == lead[k]);
            } else {
                assert(challenge[k] == tail[k - i - 9]);
            }
        }
    }
    if exists|i: int|
        {
            &&& #[trigger] password_stands_at(challenge, i)
            &&& forall|k: int|
                0 <= k < challenge.len() && (k < i || k >= i + 9) ==> is_white_space(
                    #[trigger] challenge[k],
                )
        } {
        let i = choose|i: int|
            {
                &&& #[trigger] password_stands_at(challenge, i)
                &&& forall|k: int|
                    0 <= k < challenge.len() && (k < i || k >= i + 9) ==> is_white_space(
                        #[trigger] challenge[k],
                    )
            };
        let lead = challenge.subrange(0, i);
        let core = challenge.subrange(i, i + 9);
        let tail = challenge.subrange(i + 9, challenge.len() as int);
        assert(challenge =~= lead + core + tail);
        trimming_undoes_padding(lead, core, tail);
        assert(password_stands_at(core, 0));
    }
}

/// PAM's own wording of the challenge is recognised.
pub proof fn usual_wording_asks_for_password()
    ensures
        asks_for_password("Password:"@),
{
    let usual = "Password:"@;
    reveal_strlit("Password:");
    reveal_strlit("password:");
    assert(trimmed(usual) == usual);
    assert(usual.map_values(|c: char| ascii_lower(c)) =~= password_challenge().map_values(
        |c: char| ascii_lower(c),
    ));
}

/// Tells whether a challenge is the conventional one for the password.
pub fn is_password_challenge(challenge: &str) -> (res: bool)
    ensures
        res == asks_for_password(challenge@),
{
    challenge.trim().eq_ignore_ascii_case("password:")
}

/// Tells whether two strings hold the same characters.
pub(crate) fn same(a: &String, b: &str) -> (res: bool)
    ensures
        res == (a@ == b@),
{
    *a == b.to_string()
}

/// Moves the characters out of a string and leaves it empty.
pub(crate) fn take(text: &mut String) -> (taken: String)
    ensures
        taken@ == old(text)@,
        final(text)@ == Seq::<char>::empty(),
{
    let mut taken = String::new();
    std::mem::swap(text, &mut taken);
    taken
}

} // verus!
