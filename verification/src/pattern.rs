//! Regular expressions, as far as the library needs them.

use vstd::prelude::*;

verus! {

/// Why a pattern was refused. Its contents are never inspected here.
#[verifier::external_type_specification]
#[verifier::external_body]
pub struct ExRegexError(regex::Error);

/// Whether `c` has a meaning of its own in a pattern.
pub open spec fn is_meta_character(c: char) -> bool {
    c == '\\' || c == '.' || c == '+' || c == '*' || c == '?' || c == '(' || c == ')' || c == '|'
        || c == '[' || c == ']' || c == '{' || c == '}' || c == '^' || c == '$' || c == '#' || c
        == '&' || c == '-' || c == '~'
}

/// `text` with a backslash before every character that has a meaning of its
/// own in a pattern, and every other character as it is.
pub open spec fn regex_escaped(text: Seq<char>) -> Seq<char>
    decreases text.len(),
{
    if text.len() == 0 {
        seq![]
    } else if is_meta_character(text.last()) {
        regex_escaped(text.drop_last()).push('\\').push(text.last())
    } else {
        regex_escaped(text.drop_last()).push(text.last())
    }
}

/// What the leftmost match of `pattern` in `text` holds in its capture
/// group number `group`, the whole match being group zero. `None` where the
/// pattern does not compile; `Some(None)` where nothing matches or the group
/// took no part in the match.
pub uninterp spec fn regex_capture(pattern: Seq<char>, text: Seq<char>, group: nat) -> Option<
    Option<Seq<char>>,
>;

/// `text` with every match of `pattern` replaced by `replacement`, in which
/// `$` refers to capture groups. `None` where the pattern does not compile.
pub uninterp spec fn regex_replaced(
    pattern: Seq<char>,
    text: Seq<char>,
    replacement: Seq<char>,
) -> Option<Seq<char>>;

/// Calls `regex::escape`. Trusted: the result is [`regex_escaped`] of the
/// argument, that is, the argument with a backslash put before each of the
/// crate's meta characters.
#[verifier::external_body]
pub(crate) fn escape(text: &str) -> (escaped: String)
    ensures
        escaped@ == regex_escaped(text@),
{
    regex::escape(text)
}

/// Compiles `pattern` with `regex::Regex::new`, searches `text` with
/// `Regex::captures` and takes the group with `Captures::get`. Trusted: the
/// outcome is [`regex_capture`] of the arguments, an `Err` standing for a
/// pattern that does not compile.
#[verifier::external_body]
pub(crate) fn capture(pattern: &str, text: &str, group: usize) -> (found: Result<
    Option<String>,
    regex::Error,
>)
    ensures
        match found {
            Ok(Some(held)) => regex_capture(pattern@, text@, group as nat) == Some(Some(held@)),
            Ok(None) => regex_capture(pattern@, text@, group as nat) == Some(
                None::<Seq<char>>,
            ),
            Err(_) => regex_capture(pattern@, text@, group as nat) is None,
        },
{
    let compiled = regex::Regex::new(pattern)?;
    Ok(compiled.captures(text).and_then(|c| c.get(group)).map(|m| m.as_str().to_string()))
}

/// Compiles `pattern` with `regex::Regex::new` and calls
/// `Regex::replace_all`. Trusted: the outcome is [`regex_replaced`] of the
/// arguments, an `Err` standing for a pattern that does not compile.
#[verifier::external_body]
pub(crate) fn replace_all(pattern: &str, text: &str, replacement: &str) -> (replaced: Result<
    String,
    regex::Error,
>)
    ensures
        match replaced {
            Ok(result) => regex_replaced(pattern@, text@, replacement@) == Some(result@),
            Err(_) => regex_replaced(pattern@, text@, replacement@) is None,
        },
{
    let compiled = regex::Regex::new(pattern)?;
    Ok(compiled.replace_all(text, replacement).into_owned())
}

/// A pattern did not compile.
#[derive(Debug, Clone, Copy, PartialEq, Eq, Structural)]
pub struct PatternError;

} // verus!
