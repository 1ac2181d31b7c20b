//! Building the texts of error messages.

use vstd::prelude::*;
use vstd::string::*;

verus! {

/// What Rust's `Debug` formatting makes of a string slice: the text between
/// double quotes, with the characters that need it escaped.
pub uninterp spec fn debug_quoted(text: Seq<char>) -> Seq<char>;

/// Formats `text` with `{:?}`, the `Debug` implementation of `str` in std.
/// Trusted: the result is exactly what `debug_quoted` names for the
/// characters of `text`; nothing more is stated of it.
#[verifier::external_body]
pub(crate) fn quote_debug(text: &str) -> (r: String)
    ensures
        r@ == debug_quoted(text@),
{
    format!("{:?}", text)
}

/// `prefix` followed by `rest`.
pub fn join(prefix: &str, rest: &str) -> (r: String)
    ensures
        r@ == prefix@ + rest@,
{
    let mut r = String::from_str(prefix);
    r.append(rest);
    r
}

/// `a`, then `b`, then `c`.
pub fn join3(a: &str, b: &str, c: &str) -> (r: String)
    ensures
        r@ == a@ + b@ + c@,
{
    let mut r = String::from_str(a);
    r.append(b);
    r.append(c);
    r
}

} // verus!
