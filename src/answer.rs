//! The operator's reply to a confirmation prompt.
use vstd::prelude::*;

verus! {

/// Whether `c` has Unicode's White_Space property, as `char::is_whitespace`
/// tests it.
pub open spec fn white_space(c: char) -> bool {
    let n = c as u32;
    (0x9 <= n <= 0xd) || n == 0x20 || n == 0x85 || n == 0xa0 || n == 0x1680 || (0x2000 <= n
        <= 0x200a) || n == 0x2028 || n == 0x2029 || n == 0x202f || n == 0x205f || n == 0x3000
}

/// The text without its leading white space.
pub open spec fn trim_start_of(s: Seq<char>) -> Seq<char>
    decreases s.len(),
{
    if s.len() > 0 && white_space(s[0]) {
        trim_start_of(s.drop_first())
    } else {
        s
    }
}

/// The text without its trailing white space.
pub open spec fn trim_end_of(s: Seq<char>) -> Seq<char>
    decreases s.len(),
{
    if s.len() > 0 && white_space(s.last()) {
        trim_end_of(s.drop_last())
    } else {
        s
    }
}

/// The text without its leading and trailing white space.
pub open spec fn trim_of(s: Seq<char>) -> Seq<char> {
    trim_end_of(trim_start_of(s))
}

/// What `str::to_lowercase` makes of a text.
pub uninterp spec fn lower_of(s: Seq<char>) -> Seq<char>;

/// Relies on `str::trim`: the text with its leading and trailing white space
/// (as `char::is_whitespace` defines it) removed.
#[verifier::external_body]
fn trimmed(s: &str) -> (r: &str)
    ensures
        r@ == trim_of(s@),
{
    s.trim()
}

/// Relies on `str::to_lowercase`: the lowercase mapping of each character; the
/// result depends on the characters alone.
#[verifier::external_body]
fn lowercased(s: &str) -> (r: String)
    ensures
        r@ == lower_of(s@),
{
    s.to_lowercase()
}

/// A folded answer accepts when it is exactly `y` or `yes`.
pub open spec fn affirmative(folded: Seq<char>) -> bool {
    folded == seq!['y'] || folded == seq!['y', 'e', 's']
}

/// Whether a raw answer line accepts: trimmed, then lowercased, it reads `y` or
/// `yes`.
pub open spec fn accepts(line: Seq<char>) -> bool {
    affirmative(lower_of(trim_of(line)))
}

/// Decides an answer that has already been trimmed and lowercased.
pub fn is_affirmative(folded: &str) -> (r: bool)
    ensures
        r == affirmative(folded@),
{
    let n = folded.unicode_len();
    if n == 1 {
        let r = folded.get_char(0) == 'y';
        if r {
            assert(folded@ =~= seq!['y']);
        }
        r
    } else if n == 3 {
        let r = folded.get_char(0) == 'y' && folded.get_char(1) == 'e' && folded.get_char(2) == 's';
        if r {
            assert(folded@ =~= seq!['y', 'e', 's']);
        }
        r
    } else {
        false
    }
}

/// Decides a raw answer line read from the operator.
pub fn confirms(line: &str) -> (r: bool)
    ensures
        r == accepts(line@),
{
    let t = trimmed(line);
    let folded = lowercased(t);
    is_affirmative(folded.as_str())
}

} // verus!
