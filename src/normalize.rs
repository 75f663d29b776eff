//! HTML-to-text normalization: tags become spaces, whitespace runs collapse
//! to one space, and the ends are trimmed.

use vstd::prelude::*;
use vstd::string::*;

verus! {

/// The Unicode `White_Space` property, which both a regex `\s` and
/// `str::trim` go by.
pub open spec fn is_white_space(c: char) -> bool {
    let u = c as u32;
    (0x09 <= u && u <= 0x0d) || u == 0x20 || u == 0x85 || u == 0xa0 || u == 0x1680
        || (0x2000 <= u && u <= 0x200a) || u == 0x2028 || u == 0x2029 || u == 0x202f
        || u == 0x205f || u == 0x3000
}

/// How many characters at the start of `s` are not `>`.
pub open spec fn tag_body_len(s: Seq<char>) -> nat
    decreases s.len(),
{
    if s.len() == 0 || s[0] == '>' {
        0
    } else {
        1 + tag_body_len(s.drop_first())
    }
}

/// Left to right, each `<` that some later `>` closes starts a tag, which
/// runs to the first `>` after it and is replaced by one space. A `<` that
/// nothing closes stays, and so does everything after it.
pub open spec fn strip_tags(s: Seq<char>) -> Seq<char>
    decreases s.len(),
{
    if s.len() == 0 {
        s
    } else if s[0] == '<' && tag_body_len(s.drop_first()) < s.len() - 1 {
        let rest = s.drop_first();
        seq![' '] + strip_tags(rest.subrange(tag_body_len(rest) + 1int, rest.len() as int))
    } else {
        seq![s[0]] + strip_tags(s.drop_first())
    }
}

/// Each maximal run of white space becomes one space: a white-space
/// character followed by another one is dropped, the last one of a run
/// becomes `' '`.
pub open spec fn collapse_white_space(s: Seq<char>) -> Seq<char>
    decreases s.len(),
{
    if s.len() == 0 {
        s
    } else if is_white_space(s[0]) {
        if s.len() > 1 && is_white_space(s[1]) {
            collapse_white_space(s.drop_first())
        } else {
            seq![' '] + collapse_white_space(s.drop_first())
        }
    } else {
        seq![s[0]] + collapse_white_space(s.drop_first())
    }
}

pub open spec fn trim_start(s: Seq<char>) -> Seq<char>
    decreases s.len(),
{
    if s.len() > 0 && is_white_space(s[0]) {
        trim_start(s.drop_first())
    } else {
        s
    }
}

pub open spec fn trim_end(s: Seq<char>) -> Seq<char>
    decreases s.len(),
{
    if s.len() > 0 && is_white_space(s.last()) {
        trim_end(s.drop_last())
    } else {
        s
    }
}

/// `s` without its leading and trailing white space.
pub open spec fn trim(s: Seq<char>) -> Seq<char> {
    trim_end(trim_start(s))
}

/// What the normalizer makes of a document's text.
pub open spec fn normalize_html(s: Seq<char>) -> Seq<char> {
    trim(collapse_white_space(strip_tags(s)))
}

/// Relies on regex::Regex::new and regex::Regex::replace_all, for the two
/// patterns the normalizer uses: `<[^>]*>` matches from a `<` to the first
/// `>` after it, `\s+` matches a maximal run of Unicode white space, and
/// each leftmost match, left to right, is replaced by `rep`, here one space.
/// Both patterns are valid, so compiling them does not fail.
#[verifier::external_body]
fn regex_replace_all(pattern: &str, text: &str, rep: &str) -> (r: String)
    requires
        pattern@ == "<[^>]*>"@ || pattern@ == "\\s+"@,
        rep@ == " "@,
    ensures
        pattern@ == "<[^>]*>"@ ==> r@ == strip_tags(text@),
        pattern@ == "\\s+"@ ==> r@ == collapse_white_space(text@),
{
    let re = regex::Regex::new(pattern).unwrap();
    re.replace_all(text, rep).into_owned()
}

/// Relies on str::trim: leading and trailing `White_Space` characters are
/// removed, the rest is kept.
#[verifier::external_body]
fn trim_white_space(s: &str) -> (r: &str)
    ensures
        r@ == trim(s@),
{
    s.trim()
}

/// Normalizes the text of an HTML document into one line.
pub fn extract_text_from_html(html: &str) -> (r: String)
    ensures
        r@ == normalize_html(html@),
{
    let no_tags = regex_replace_all("<[^>]*>", html, " ");
    let cleaned = regex_replace_all("\\s+", no_tags.as_str(), " ");
    let trimmed = trim_white_space(cleaned.as_str());
    String::from_str(trimmed)
}

} // verus!
