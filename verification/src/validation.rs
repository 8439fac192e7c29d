use vstd::prelude::*;
use regex::Regex;

verus! {

/// Pattern of user names.
pub const USERNAME_PATTERN: &'static str = "^[a-zA-Z0-9.-]+$";

/// Pattern of e-mail addresses.
pub const EMAIL_PATTERN: &'static str = "^[a-zA-Z0-9_.+-]+@[a-zA-Z0-9-]+\\.[a-zA-Z0-9-.]+$";

/// Pattern of board handles: letters only.
pub const HANDLE_PATTERN: &'static str = "^[a-zA-Z]+$";

/// Pattern of alphanumeric names.
pub const ALNUM_PATTERN: &'static str = "^[a-zA-Z0-9]+$";

pub open spec fn is_ascii_letter(c: char) -> bool {
    ('a' <= c && c <= 'z') || ('A' <= c && c <= 'Z')
}

pub open spec fn is_ascii_alnum(c: char) -> bool {
    is_ascii_letter(c) || ('0' <= c && c <= '9')
}

/// `[a-zA-Z0-9.-]`
pub open spec fn is_username_char(c: char) -> bool {
    is_ascii_alnum(c) || c == '.' || c == '-'
}

/// `[a-zA-Z0-9_.+-]`
pub open spec fn is_email_local_char(c: char) -> bool {
    is_ascii_alnum(c) || c == '_' || c == '.' || c == '+' || c == '-'
}

/// `[a-zA-Z0-9-]`
pub open spec fn is_email_domain_char(c: char) -> bool {
    is_ascii_alnum(c) || c == '-'
}

/// `[a-zA-Z0-9-.]`
pub open spec fn is_email_tld_char(c: char) -> bool {
    is_ascii_alnum(c) || c == '-' || c == '.'
}

/// The strings that `^[a-zA-Z0-9.-]+$` matches.
pub open spec fn username_shape(s: Seq<char>) -> bool {
    s.len() > 0 && forall|k: int| 0 <= k < s.len() ==> is_username_char(#[trigger] s[k])
}

/// The strings that `^[a-zA-Z0-9]+$` matches.
pub open spec fn alnum_shape(s: Seq<char>) -> bool {
    s.len() > 0 && forall|k: int| 0 <= k < s.len() ==> is_ascii_alnum(#[trigger] s[k])
}

/// The strings that `^[a-zA-Z]+$` matches: ASCII letters only.
pub open spec fn letters_shape(s: Seq<char>) -> bool {
    s.len() > 0 && forall|k: int| 0 <= k < s.len() ==> is_ascii_letter(#[trigger] s[k])
}

/// `s` is `local@domain.tld` with `@` at `i` and `.` at `j`, each part
/// non-empty and made of its own characters.
pub open spec fn email_split(s: Seq<char>, i: int, j: int) -> bool {
    &&& 0 < i
    &&& i + 1 < j
    &&& j + 1 < s.len()
    &&& s[i] == '@'
    &&& s[j] == '.'
    &&& forall|k: int| 0 <= k < i ==> is_email_local_char(#[trigger] s[k])
    &&& forall|k: int| i < k < j ==> is_email_domain_char(#[trigger] s[k])
    &&& forall|k: int| j < k < s.len() ==> is_email_tld_char(#[trigger] s[k])
}

/// The strings that the e-mail pattern matches.
pub open spec fn email_shape(s: Seq<char>) -> bool {
    exists|i: int, j: int| email_split(s, i, j)
}

/// Whether `text` matches `pattern` (`Regex::new(pattern)`, then
/// `is_match`), for the patterns of this library.
///
/// Claimed of the regex crate: each of these patterns compiles, and it
/// matches exactly the strings described by the spec function named
/// beside it (`^` and `$` anchor at the ends of the text; the classes are
/// ASCII; a `-` next to `]` or after a range is a literal).
#[verifier::external_body]
pub(crate) fn regex_matches(pattern: &str, text: &str) -> (r: bool)
    requires
        pattern@ == USERNAME_PATTERN@ || pattern@ == EMAIL_PATTERN@ || pattern@ == HANDLE_PATTERN@
            || pattern@ == ALNUM_PATTERN@,
    ensures
        pattern@ == USERNAME_PATTERN@ ==> (r <==> username_shape(text@)),
        pattern@ == EMAIL_PATTERN@ ==> (r <==> email_shape(text@)),
        pattern@ == HANDLE_PATTERN@ ==> (r <==> letters_shape(text@)),
        pattern@ == ALNUM_PATTERN@ ==> (r <==> alnum_shape(text@)),
{
    Regex::new(pattern).unwrap().is_match(text)
}

/// Whether a login name is an e-mail address (else it is a user name).
pub fn is_email(name: &str) -> (r: bool)
    ensures
        r == email_shape(name@),
{
    regex_matches(EMAIL_PATTERN, name)
}

/// Whether the length of `s`, counted in characters, lies in `min..=max`
/// (the `length` rule of the forms).
pub fn length_within(s: &str, min: usize, max: usize) -> (r: bool)
    ensures
        r == (min <= s@.len() <= max),
{
    let cs = crate::text::chars_of(s);
    min <= cs.len() && cs.len() <= max
}

/// The texts of a list of messages.
pub open spec fn texts(v: Seq<String>) -> Seq<Seq<char>> {
    v.map_values(|m: String| m@)
}

/// `[m]` when `failed`, else nothing.
pub open spec fn msg_if(failed: bool, m: Seq<char>) -> Seq<Seq<char>> {
    if failed {
        seq![m]
    } else {
        Seq::empty()
    }
}

/// Appends `msg` to `errors` when `failed`.
pub(crate) fn push_if(errors: &mut Vec<String>, failed: bool, msg: &str)
    ensures
        texts(final(errors)@) == texts(old(errors)@) + msg_if(failed, msg@),
{
    let ghost before = errors@;
    if failed {
        errors.push(msg.to_owned());
        assert(texts(errors@) =~= texts(before) + msg_if(failed, msg@));
    } else {
        assert(texts(errors@) =~= texts(before) + msg_if(failed, msg@));
    }
}

} // verus!
