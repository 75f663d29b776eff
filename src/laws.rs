//! What holds of every normalized text, and normalizing twice.

use vstd::prelude::*;
use crate::normalize::{
    collapse_white_space, is_white_space, normalize_html, strip_tags, tag_body_len, trim, trim_end,
    trim_start,
};

verus! {

/// `s` holds no character `c`.
pub open spec fn lacks(s: Seq<char>, c: char) -> bool {
    forall|k: int| 0 <= k < s.len() ==> s[k] != c
}

/// No `<` in `s` comes before a `>`.
pub open spec fn no_open_before_close(s: Seq<char>) -> bool {
    forall|i: int, j: int| 0 <= i < j < s.len() && s[i] == '<' ==> s[j] != '>'
}

/// `s` holds a substring that matches `<[^>]*>`.
pub open spec fn contains_tag(s: Seq<char>) -> bool {
    exists|i: int, j: int|
        0 <= i < j < s.len() && s[i] == '<' && s[j] == '>' && (forall|k: int|
            i < k < j ==> s[k] != '>')
}

/// Two white-space characters stand next to each other in `s`.
pub open spec fn has_double_white_space(s: Seq<char>) -> bool {
    exists|i: int| 0 <= i && i + 1 < s.len() && is_white_space(s[i]) && is_white_space(#[trigger] s[i + 1])
}

/// Every white-space character of `s` is a space, and none is followed by
/// another one.
pub open spec fn single_spaced(s: Seq<char>) -> bool {
    forall|k: int|
        0 <= k < s.len() && is_white_space(#[trigger] s[k]) ==> s[k] == ' ' && (k + 1 < s.len()
            ==> !is_white_space(s[k + 1]))
}

/// `s` neither starts nor ends with white space.
pub open spec fn trimmed(s: Seq<char>) -> bool {
    s.len() > 0 ==> !is_white_space(s[0]) && !is_white_space(s.last())
}

proof fn lemma_tag_body_len(s: Seq<char>)
    ensures
        tag_body_len(s) <= s.len(),
        forall|k: int| 0 <= k < tag_body_len(s) ==> s[k] != '>',
        tag_body_len(s) < s.len() ==> s[tag_body_len(s) as int] == '>',
    decreases s.len(),
{
    if s.len() > 0 && s[0] != '>' {
        lemma_tag_body_len(s.drop_first());
        assert forall|k: int| 0 <= k < tag_body_len(s) implies s[k] != '>' by {
            if k > 0 {
                assert(s[k] == s.drop_first()[k - 1]);
            }
        }
    }
}

proof fn lemma_strip_lacks_close(s: Seq<char>)
    requires
        lacks(s, '>'),
    ensures
        lacks(strip_tags(s), '>'),
    decreases s.len(),
{
    if s.len() > 0 {
        let rest = s.drop_first();
        lemma_tag_body_len(rest);
        if tag_body_len(rest) < rest.len() {
            assert(rest[tag_body_len(rest) as int] == s[tag_body_len(rest) + 1int]);
        }
        lemma_strip_lacks_close(rest);
        let t = strip_tags(rest);
        assert(strip_tags(s) =~= seq![s[0]] + t);
        assert forall|k: int| 0 <= k < strip_tags(s).len() implies strip_tags(s)[k] != '>' by {
            if k > 0 {
                assert(strip_tags(s)[k] == t[k - 1]);
            }
        }
    }
}

proof fn lemma_strip_tag_free(s: Seq<char>)
    ensures
        no_open_before_close(strip_tags(s)),
    decreases s.len(),
{
    if s.len() > 0 {
        let rest = s.drop_first();
        lemma_tag_body_len(rest);
        let r = strip_tags(s);
        if s[0] == '<' && tag_body_len(rest) < s.len() - 1 {
            let sub = rest.subrange(tag_body_len(rest) + 1int, rest.len() as int);
            lemma_strip_tag_free(sub);
            let t = strip_tags(sub);
            assert(r =~= seq![' '] + t);
            assert forall|i: int, j: int| 0 <= i < j < r.len() && r[i] == '<' implies r[j] != '>' by {
                assert(r[i] == t[i - 1]);
                assert(r[j] == t[j - 1]);
            }
        } else {
            let t = strip_tags(rest);
            assert(r =~= seq![s[0]] + t);
            if s[0] == '<' {
                assert forall|k: int| 0 <= k < rest.len() implies rest[k] != '>' by {}
                lemma_strip_lacks_close(rest);
            }
            lemma_strip_tag_free(rest);
            assert forall|i: int, j: int| 0 <= i < j < r.len() && r[i] == '<' implies r[j] != '>' by {
                assert(r[j] == t[j - 1]);
                if i > 0 {
                    assert(r[i] == t[i - 1]);
                }
            }
        }
    }
}

proof fn lemma_collapse_lacks(s: Seq<char>, c: char)
    requires
        c != ' ',
        lacks(s, c),
    ensures
        lacks(collapse_white_space(s), c),
    decreases s.len(),
{
    if s.len() > 0 {
        let t = collapse_white_space(s.drop_first());
        lemma_collapse_lacks(s.drop_first(), c);
        let r = collapse_white_space(s);
        assert forall|k: int| 0 <= k < r.len() implies r[k] != c by {
            if r =~= t {
            } else if k > 0 {
                assert(r[k] == t[k - 1]);
            }
        }
    }
}

proof fn lemma_collapse_tag_free(s: Seq<char>)
    requires
        no_open_before_close(s),
    ensures
        no_open_before_close(collapse_white_space(s)),
    decreases s.len(),
{
    if s.len() > 0 {
        let rest = s.drop_first();
        assert(no_open_before_close(rest)) by {
            assert forall|i: int, j: int| 0 <= i < j < rest.len() && rest[i] == '<' implies rest[j] != '>' by {
                assert(s[i + 1] == rest[i] && s[j + 1] == rest[j]);
            }
        }
        lemma_collapse_tag_free(rest);
        let t = collapse_white_space(rest);
        let r = collapse_white_space(s);
        if s[0] == '<' {
            assert(lacks(rest, '>')) by {
                assert forall|k: int| 0 <= k < rest.len() implies rest[k] != '>' by {
                    assert(s[k + 1] == rest[k]);
                }
            }
            lemma_collapse_lacks(rest, '>');
        }
        if !(r =~= t) {
            assert forall|i: int, j: int| 0 <= i < j < r.len() && r[i] == '<' implies r[j] != '>' by {
                assert(r[j] == t[j - 1]);
                if i > 0 {
                    assert(r[i] == t[i - 1]);
                }
            }
        }
    }
}

proof fn lemma_collapse_first(s: Seq<char>)
    requires
        s.len() > 0,
    ensures
        collapse_white_space(s).len() > 0,
        is_white_space(collapse_white_space(s)[0]) <==> is_white_space(s[0]),
    decreases s.len(),
{
    if is_white_space(s[0]) && s.len() > 1 && is_white_space(s[1]) {
        lemma_collapse_first(s.drop_first());
    }
}

proof fn lemma_collapse_single_spaced(s: Seq<char>)
    ensures
        single_spaced(collapse_white_space(s)),
    decreases s.len(),
{
    if s.len() > 0 {
        let rest = s.drop_first();
        lemma_collapse_single_spaced(rest);
        let t = collapse_white_space(rest);
        let r = collapse_white_space(s);
        if rest.len() > 0 {
            lemma_collapse_first(rest);
        }
        if !(r =~= t) {
            assert forall|k: int|
                0 <= k < r.len() && is_white_space(#[trigger] r[k]) implies r[k] == ' ' && (k + 1
                < r.len() ==> !is_white_space(r[k + 1])) by {
                if k > 0 {
                    assert(r[k] == t[k - 1]);
                }
                if k + 1 < r.len() {
                    assert(r[k + 1] == t[k]);
                }
            }
        }
    }
}

proof fn lemma_trim_start(s: Seq<char>)
    ensures
        trim_start(s).len() <= s.len(),
        trim_start(s) =~= s.subrange(s.len() - trim_start(s).len(), s.len() as int),
        trim_start(s).len() > 0 ==> !is_white_space(trim_start(s)[0]),
    decreases s.len(),
{
    if s.len() > 0 && is_white_space(s[0]) {
        lemma_trim_start(s.drop_first());
    }
}

proof fn lemma_trim_end(s: Seq<char>)
    ensures
        trim_end(s).len() <= s.len(),
        trim_end(s) =~= s.subrange(0, trim_end(s).len() as int),
        trim_end(s).len() > 0 ==> !is_white_space(trim_end(s).last()),
    decreases s.len(),
{
    if s.len() > 0 && is_white_space(s.last()) {
        lemma_trim_end(s.drop_last());
    }
}

proof fn lemma_trim(s: Seq<char>)
    requires
        no_open_before_close(s),
        single_spaced(s),
    ensures
        no_open_before_close(trim(s)),
        single_spaced(trim(s)),
        trimmed(trim(s)),
{
    let a = trim_start(s);
    lemma_trim_start(s);
    lemma_trim_end(a);
    let b = trim_end(a);
    let off = s.len() - a.len();
    assert forall|k: int| 0 <= k < b.len() implies b[k] == s[k + off] by {
        assert(b[k] == a[k]);
    }
    assert forall|i: int, j: int| 0 <= i < j < b.len() && b[i] == '<' implies b[j] != '>' by {
        assert(b[i] == s[i + off] && b[j] == s[j + off]);
    }
    assert forall|k: int| 0 <= k < b.len() && is_white_space(#[trigger] b[k]) implies b[k] == ' '
        && (k + 1 < b.len() ==> !is_white_space(b[k + 1])) by {
        assert(b[k] == s[k + off]);
        if k + 1 < b.len() {
            assert(b[k + 1] == s[k + 1 + off]);
        }
    }
    if b.len() > 0 {
        assert(b[0] == a[0]);
    }
}

proof fn lemma_normalized(s: Seq<char>)
    ensures
        no_open_before_close(normalize_html(s)),
        single_spaced(normalize_html(s)),
        trimmed(normalize_html(s)),
{
    let stripped = strip_tags(s);
    lemma_strip_tag_free(s);
    lemma_collapse_tag_free(stripped);
    lemma_collapse_single_spaced(stripped);
    lemma_trim(collapse_white_space(stripped));
}

/// A normalized text holds no substring matching `<[^>]*>`, no two
/// white-space characters in a row, and no white space at either end.
pub proof fn lemma_normalized_text_is_clean(s: Seq<char>)
    ensures
        !contains_tag(normalize_html(s)),
        !has_double_white_space(normalize_html(s)),
        trimmed(normalize_html(s)),
{
    lemma_normalized(s);
    let r = normalize_html(s);
    assert(!has_double_white_space(r)) by {
        assert forall|i: int| 0 <= i && i + 1 < r.len() && is_white_space(r[i]) implies !is_white_space(
            #[trigger] r[i + 1]) by {}
    }
}

proof fn lemma_strip_tag_free_unchanged(s: Seq<char>)
    requires
        no_open_before_close(s),
    ensures
        strip_tags(s) == s,
    decreases s.len(),
{
    if s.len() > 0 {
        let rest = s.drop_first();
        lemma_tag_body_len(rest);
        assert(no_open_before_close(rest)) by {
            assert forall|i: int, j: int| 0 <= i < j < rest.len() && rest[i] == '<' implies rest[j] != '>' by {
                assert(s[i + 1] == rest[i] && s[j + 1] == rest[j]);
            }
        }
        if s[0] == '<' && tag_body_len(rest) < rest.len() {
            assert(s[tag_body_len(rest) + 1int] == rest[tag_body_len(rest) as int]);
        }
        lemma_strip_tag_free_unchanged(rest);
        assert(strip_tags(s) =~= s);
    }
}

proof fn lemma_collapse_single_spaced_unchanged(s: Seq<char>)
    requires
        single_spaced(s),
    ensures
        collapse_white_space(s) == s,
    decreases s.len(),
{
    if s.len() > 0 {
        let rest = s.drop_first();
        assert(single_spaced(rest)) by {
            assert forall|k: int| 0 <= k < rest.len() && is_white_space(#[trigger] rest[k]) implies rest[k] == ' '
                && (k + 1 < rest.len() ==> !is_white_space(rest[k + 1])) by {
                assert(s[k + 1] == rest[k]);
                assert(is_white_space(s[k + 1]));
                if k + 1 < rest.len() {
                    assert(s[k + 2] == rest[k + 1]);
                }
            }
        }
        if is_white_space(s[0]) {
            assert(s[0] == ' ');
        }
        lemma_collapse_single_spaced_unchanged(rest);
        assert(collapse_white_space(s) =~= s);
    }
}

/// Normalizing a normalized text changes nothing; in particular a text
/// without tags, once normalized, stays as it is.
pub proof fn lemma_normalize_idempotent(s: Seq<char>)
    ensures
        normalize_html(normalize_html(s)) == normalize_html(s),
{
    let r = normalize_html(s);
    lemma_normalized(s);
    lemma_strip_tag_free_unchanged(r);
    lemma_collapse_single_spaced_unchanged(r);
    if r.len() > 0 {
        assert(trim_start(r) == r);
        assert(trim_end(r) == r);
    }
}

} // verus!
