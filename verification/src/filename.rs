//! Cleaning of the file names that the extractor derives from titles.
//!
//! Three rules are applied in order: an "Artist - " prefix is removed, every
//! parenthesised annotation such as " (Official Video)" is removed, and white
//! space in front of a '.' is removed. The rules are stated as functions on
//! `Seq<char>`; the work itself is done by regular expressions.

use crate::text::{first_index_of, is_space, leading_spaces, lemma_first_index_of, lemma_leading_spaces};
use regex::Regex;
use vstd::prelude::*;

verus! {

/// Regular expression for the prefix rule.
pub const ARTIST_PREFIX_PATTERN: &'static str = "^.*? - ";

/// Regular expression for the annotation rule.
pub const ANNOTATION_PATTERN: &'static str = "\\s*\\([^)]*\\)";

/// Regular expression for the rule on white space in front of a '.'.
pub const SPACED_DOT_PATTERN: &'static str = "\\s+\\.";

/// Whether `s` starts with the separator " - ".
pub open spec fn starts_with_separator(s: Seq<char>) -> bool {
    s.len() >= 3 && s[0] == ' ' && s[1] == '-' && s[2] == ' '
}

/// Length of the artist prefix of `s`: the shortest start of `s` that ends
/// with " - " and holds no line feed in front of that separator. It is 0
/// where `s` has no such start.
pub open spec fn artist_prefix_len(s: Seq<char>) -> nat
    decreases s.len(),
{
    if starts_with_separator(s) {
        3
    } else if s.len() == 0 || s[0] == '\n' {
        0
    } else {
        let rest = artist_prefix_len(s.skip(1));
        if rest == 0 {
            0
        } else {
            1 + rest
        }
    }
}

/// `s` without its artist prefix.
pub open spec fn without_artist_prefix(s: Seq<char>) -> Seq<char> {
    s.skip(artist_prefix_len(s) as int)
}

/// Length of the annotation that `s` starts with: any white space, then '('
/// and everything through the next ')'. It is 0 where `s` starts with none.
pub open spec fn annotation_len(s: Seq<char>) -> nat {
    let open = leading_spaces(s) as int;
    let close = open + 1 + first_index_of(s.skip(open + 1), ')');
    if open < s.len() && s[open] == '(' && close < s.len() {
        (close + 1) as nat
    } else {
        0
    }
}

/// `s` without its annotations, found from left to right.
pub open spec fn without_annotations(s: Seq<char>) -> Seq<char>
    decreases s.len(),
{
    if s.len() == 0 {
        s
    } else if annotation_len(s) > 0 {
        without_annotations(s.skip(annotation_len(s) as int))
    } else {
        seq![s[0]] + without_annotations(s.skip(1))
    }
}

/// Length of the spaced dot that `s` starts with: one or more white space
/// characters and the '.' that follows them. It is 0 where `s` starts with
/// none.
pub open spec fn spaced_dot_len(s: Seq<char>) -> nat {
    let dot = leading_spaces(s) as int;
    if 0 < dot < s.len() && s[dot] == '.' {
        (dot + 1) as nat
    } else {
        0
    }
}

/// `s` with each spaced dot, found from left to right, replaced by ".".
pub open spec fn with_tight_dots(s: Seq<char>) -> Seq<char>
    decreases s.len(),
{
    if s.len() == 0 {
        s
    } else if spaced_dot_len(s) > 0 {
        seq!['.'] + with_tight_dots(s.skip(spaced_dot_len(s) as int))
    } else {
        seq![s[0]] + with_tight_dots(s.skip(1))
    }
}

/// The clean form of the file name `s`: the three rules applied in order.
pub open spec fn sanitized(s: Seq<char>) -> Seq<char> {
    with_tight_dots(without_annotations(without_artist_prefix(s)))
}

/// Whether no '(' in `s` has a ')' anywhere behind it.
pub open spec fn no_annotation(s: Seq<char>) -> bool {
    forall|i: int, j: int|
        0 <= i < j < s.len() ==> !(#[trigger] s[i] == '(' && #[trigger] s[j] == ')')
}

/// Whether no '.' in `s` has white space directly in front of it.
pub open spec fn no_spaced_dot(s: Seq<char>) -> bool {
    forall|i: int| 0 <= i && i + 1 < s.len() ==> !(is_space(#[trigger] s[i]) && s[i + 1] == '.')
}

/// An artist prefix lies within the text, and dropping it shortens the text.
pub proof fn lemma_artist_prefix_len(s: Seq<char>)
    ensures
        artist_prefix_len(s) <= s.len(),
        artist_prefix_len(s) == 0 || artist_prefix_len(s) >= 3,
    decreases s.len(),
{
    if !starts_with_separator(s) && s.len() > 0 && s[0] != '\n' {
        lemma_artist_prefix_len(s.skip(1));
    }
}

/// The artist prefix ends with the first separator of the text, and no line
/// feed stands in front of that separator. Where there is no prefix, every
/// separator has a line feed in front of it.
pub proof fn lemma_artist_prefix_meaning(s: Seq<char>)
    ensures
        artist_prefix_len(s) > 0 ==> starts_with_separator(s.skip(artist_prefix_len(s) - 3)),
        forall|k: int| 0 <= k < artist_prefix_len(s) - 3 ==> #[trigger] s[k] != '\n',
        forall|k: int|
            0 <= k < artist_prefix_len(s) - 3 ==> !starts_with_separator(#[trigger] s.skip(k)),
        artist_prefix_len(s) == 0 ==> forall|k: int|
            0 <= k <= s.len() && starts_with_separator(#[trigger] s.skip(k)) ==> s.take(k).contains(
                '\n',
            ),
    decreases s.len(),
{
    lemma_artist_prefix_len(s);
    if starts_with_separator(s) {
        assert(s.skip(0) =~= s);
    } else if s.len() == 0 || s[0] == '\n' {
        assert forall|k: int|
            0 <= k <= s.len() && starts_with_separator(#[trigger] s.skip(k)) implies s.take(
            k,
        ).contains('\n') by {
            if k == 0 {
                assert(s.skip(0) =~= s);
            } else {
                assert(s.take(k)[0] == '\n');
            }
        }
    } else {
        let rest = s.skip(1);
        lemma_artist_prefix_meaning(rest);
        lemma_artist_prefix_len(rest);
        let n = artist_prefix_len(s) as int;
        if n > 0 {
            assert(rest.skip(n - 1 - 3) =~= s.skip(n - 3));
        }
        assert forall|k: int| 0 <= k < n - 3 implies #[trigger] s[k] != '\n' by {
            if k > 0 {
                assert(rest[k - 1] == s[k]);
            }
        }
        assert forall|k: int| 0 <= k < n - 3 implies !starts_with_separator(
            #[trigger] s.skip(k),
        ) by {
            if k == 0 {
                assert(s.skip(0) =~= s);
            } else {
                assert(rest.skip(k - 1) =~= s.skip(k));
            }
        }
        if n == 0 {
            assert forall|k: int|
                0 <= k <= s.len() && starts_with_separator(#[trigger] s.skip(k)) implies s.take(
                k,
            ).contains('\n') by {
                if k == 0 {
                    assert(s.skip(0) =~= s);
                } else {
                    assert(rest.skip(k - 1) =~= s.skip(k));
                    let before = rest.take(k - 1);
                    let j = choose|j: int| 0 <= j < before.len() && before[j] == '\n';
                    assert(s.take(k)[j + 1] == '\n');
                }
            }
        }
    }
}

/// An annotation at the start of `s` lies within `s`, opens with a '(' and
/// ends with a ')'.
pub proof fn lemma_annotation_len(s: Seq<char>)
    requires
        annotation_len(s) > 0,
    ensures
        leading_spaces(s) + 2 <= annotation_len(s) <= s.len(),
        s[leading_spaces(s) as int] == '(',
        s[annotation_len(s) - 1] == ')',
{
    let open = leading_spaces(s) as int;
    let inner = s.skip(open + 1);
    lemma_first_index_of(inner, ')');
    assert(inner[first_index_of(inner, ')') as int] == s[open + 1 + first_index_of(inner, ')')]);
}

/// A text that starts with '(' and holds a ')' starts with an annotation.
proof fn lemma_annotation_opens(s: Seq<char>)
    requires
        s.len() > 0,
        s[0] == '(',
        s.skip(1).contains(')'),
    ensures
        annotation_len(s) > 0,
{
    let inner = s.skip(1);
    lemma_first_index_of(inner, ')');
    let k = choose|k: int| 0 <= k < inner.len() && inner[k] == ')';
    assert(first_index_of(inner, ')') <= k);
}

/// A spaced dot at the start of `s` lies within `s`, starts with white space
/// and ends with a '.'.
pub proof fn lemma_spaced_dot_len(s: Seq<char>)
    requires
        spaced_dot_len(s) > 0,
    ensures
        2 <= spaced_dot_len(s) <= s.len(),
        is_space(s[spaced_dot_len(s) - 2]),
        s[spaced_dot_len(s) - 1] == '.',
{
    lemma_leading_spaces(s);
}

/// Every character of `s` without its annotations is a character of `s`.
pub proof fn lemma_without_annotations_keeps(s: Seq<char>, c: char)
    requires
        without_annotations(s).contains(c),
    ensures
        s.contains(c),
    decreases s.len(),
{
    if s.len() == 0 {
    } else if annotation_len(s) > 0 {
        let n = annotation_len(s) as int;
        lemma_annotation_len(s);
        let rest = s.skip(n);
        lemma_without_annotations_keeps(rest, c);
        let k = choose|k: int| 0 <= k < rest.len() && rest[k] == c;
        assert(s[k + n] == c);
    } else {
        let rest = s.skip(1);
        let out = without_annotations(s);
        let k = choose|k: int| 0 <= k < out.len() && out[k] == c;
        if k == 0 {
            assert(s[0] == c);
        } else {
            assert(without_annotations(rest)[k - 1] == c);
            lemma_without_annotations_keeps(rest, c);
            let m = choose|m: int| 0 <= m < rest.len() && rest[m] == c;
            assert(s[m + 1] == c);
        }
    }
}

/// Every character of `s` with tight dots is a character of `s`.
pub proof fn lemma_with_tight_dots_keeps(s: Seq<char>, c: char)
    requires
        with_tight_dots(s).contains(c),
    ensures
        s.contains(c),
    decreases s.len(),
{
    if s.len() == 0 {
    } else {
        let n: int = if spaced_dot_len(s) > 0 {
            spaced_dot_len(s) as int
        } else {
            1
        };
        if spaced_dot_len(s) > 0 {
            lemma_spaced_dot_len(s);
        }
        let rest = s.skip(n);
        let out = with_tight_dots(s);
        let k = choose|k: int| 0 <= k < out.len() && out[k] == c;
        if k == 0 {
            assert(s[n - 1] == c);
        } else {
            assert(with_tight_dots(rest)[k - 1] == c);
            lemma_with_tight_dots_keeps(rest, c);
            let m = choose|m: int| 0 <= m < rest.len() && rest[m] == c;
            assert(s[m + n] == c);
        }
    }
}

/// What is left behind the first `n` characters of a text without
/// annotations or spaced dots has none either.
proof fn lemma_clean_suffix(s: Seq<char>, n: int)
    requires
        0 <= n <= s.len(),
    ensures
        no_annotation(s) ==> no_annotation(s.skip(n)),
        no_spaced_dot(s) ==> no_spaced_dot(s.skip(n)),
{
    let rest = s.skip(n);
    if no_annotation(s) {
        assert forall|i: int, j: int| 0 <= i < j < rest.len() implies !(#[trigger] rest[i] == '('
            && #[trigger] rest[j] == ')') by {
            assert(rest[i] == s[i + n] && rest[j] == s[j + n]);
        }
    }
    if no_spaced_dot(s) {
        assert forall|i: int| 0 <= i && i + 1 < rest.len() implies !(is_space(#[trigger] rest[i])
            && rest[i + 1] == '.') by {
            assert(rest[i] == s[i + n] && rest[i + 1] == s[i + n + 1]);
        }
    }
}

/// The annotation rule leaves no annotation behind.
pub proof fn lemma_without_annotations_clean(s: Seq<char>)
    ensures
        no_annotation(without_annotations(s)),
    decreases s.len(),
{
    if s.len() == 0 {
    } else if annotation_len(s) > 0 {
        lemma_annotation_len(s);
        lemma_without_annotations_clean(s.skip(annotation_len(s) as int));
    } else {
        let rest = s.skip(1);
        let tail = without_annotations(rest);
        let out = without_annotations(s);
        lemma_without_annotations_clean(rest);
        assert forall|i: int, j: int| 0 <= i < j < out.len() implies !(#[trigger] out[i] == '('
            && #[trigger] out[j] == ')') by {
            if i == 0 {
                if out[0] == '(' && out[j] == ')' {
                    assert(tail[j - 1] == ')');
                    lemma_without_annotations_keeps(rest, ')');
                    lemma_annotation_opens(s);
                }
            } else {
                assert(out[i] == tail[i - 1] && out[j] == tail[j - 1]);
            }
        }
    }
}

/// A text without annotations is left as it is by the annotation rule.
pub proof fn lemma_without_annotations_fixed(s: Seq<char>)
    requires
        no_annotation(s),
    ensures
        without_annotations(s) == s,
    decreases s.len(),
{
    if s.len() > 0 {
        if annotation_len(s) > 0 {
            lemma_annotation_len(s);
            assert(s[leading_spaces(s) as int] == '(' && s[annotation_len(s) - 1] == ')');
        }
        lemma_clean_suffix(s, 1);
        lemma_without_annotations_fixed(s.skip(1));
        assert(seq![s[0]] + s.skip(1) =~= s);
    }
}

/// The rule on spaced dots makes no annotation.
pub proof fn lemma_with_tight_dots_keeps_clean(s: Seq<char>)
    requires
        no_annotation(s),
    ensures
        no_annotation(with_tight_dots(s)),
    decreases s.len(),
{
    if s.len() > 0 {
        let n: int = if spaced_dot_len(s) > 0 {
            spaced_dot_len(s) as int
        } else {
            1
        };
        if spaced_dot_len(s) > 0 {
            lemma_spaced_dot_len(s);
        }
        let rest = s.skip(n);
        let tail = with_tight_dots(rest);
        let out = with_tight_dots(s);
        lemma_clean_suffix(s, n);
        lemma_with_tight_dots_keeps_clean(rest);
        assert forall|i: int, j: int| 0 <= i < j < out.len() implies !(#[trigger] out[i] == '('
            && #[trigger] out[j] == ')') by {
            if i == 0 {
                if out[0] == '(' && out[j] == ')' {
                    assert(tail[j - 1] == ')');
                    lemma_with_tight_dots_keeps(rest, ')');
                    let m = choose|m: int| 0 <= m < rest.len() && rest[m] == ')';
                    assert(s[0] == '(' && s[m + 1] == ')');
                }
            } else {
                assert(out[i] == tail[i - 1] && out[j] == tail[j - 1]);
            }
        }
    }
}

/// The rule on spaced dots leaves no spaced dot behind.
pub proof fn lemma_with_tight_dots_clean(s: Seq<char>)
    ensures
        no_spaced_dot(with_tight_dots(s)),
    decreases s.len(),
{
    if s.len() > 0 {
        let n: int = if spaced_dot_len(s) > 0 {
            spaced_dot_len(s) as int
        } else {
            1
        };
        if spaced_dot_len(s) > 0 {
            lemma_spaced_dot_len(s);
        }
        let rest = s.skip(n);
        let tail = with_tight_dots(rest);
        let out = with_tight_dots(s);
        lemma_with_tight_dots_clean(rest);
        assert forall|i: int| 0 <= i && i + 1 < out.len() implies !(is_space(#[trigger] out[i])
            && out[i + 1] == '.') by {
            if i == 0 {
                if is_space(out[0]) && out[1] == '.' {
                    // The head was kept, so it is no spaced dot, yet a dot follows its white space.
                    assert(tail[0] == '.');
                    lemma_leading_spaces(s);
                    lemma_leading_spaces(rest);
                    if spaced_dot_len(rest) > 0 {
                        lemma_spaced_dot_len(rest);
                        assert(rest[leading_spaces(rest) as int] == s[1 + leading_spaces(rest) as int]);
                    } else {
                        assert(rest[0] == '.');
                        assert(rest[0] == s[1]);
                    }
                    assert(leading_spaces(s) == 1 + leading_spaces(rest));
                }
            } else {
                assert(out[i] == tail[i - 1] && out[i + 1] == tail[i]);
            }
        }
    }
}

/// A text without spaced dots is left as it is by the rule on spaced dots.
pub proof fn lemma_with_tight_dots_fixed(s: Seq<char>)
    requires
        no_spaced_dot(s),
    ensures
        with_tight_dots(s) == s,
    decreases s.len(),
{
    if s.len() > 0 {
        if spaced_dot_len(s) > 0 {
            lemma_spaced_dot_len(s);
            assert(is_space(s[spaced_dot_len(s) - 2]));
        }
        lemma_clean_suffix(s, 1);
        lemma_with_tight_dots_fixed(s.skip(1));
        assert(seq![s[0]] + s.skip(1) =~= s);
    }
}

/// A clean name holds no annotation and no spaced dot.
pub proof fn lemma_sanitized_is_clean(s: Seq<char>)
    ensures
        no_annotation(sanitized(s)),
        no_spaced_dot(sanitized(s)),
{
    let plain = without_annotations(without_artist_prefix(s));
    lemma_without_annotations_clean(without_artist_prefix(s));
    lemma_with_tight_dots_keeps_clean(plain);
    lemma_with_tight_dots_clean(plain);
}

/// Cleaning a clean name once more only removes the artist prefix that it
/// may still have.
pub proof fn lemma_sanitized_again(s: Seq<char>)
    ensures
        sanitized(sanitized(s)) == without_artist_prefix(sanitized(s)),
{
    let clean = sanitized(s);
    let bare = without_artist_prefix(clean);
    lemma_sanitized_is_clean(s);
    lemma_artist_prefix_len(clean);
    lemma_clean_suffix(clean, artist_prefix_len(clean) as int);
    lemma_without_annotations_fixed(bare);
    lemma_with_tight_dots_fixed(bare);
}

/// Cleaning is idempotent on every name whose clean form has no artist
/// prefix left: cleaning the clean form again changes nothing.
pub proof fn lemma_sanitize_idempotent(s: Seq<char>)
    requires
        artist_prefix_len(sanitized(s)) == 0,
    ensures
        sanitized(sanitized(s)) == sanitized(s),
{
    lemma_sanitized_again(s);
    assert(sanitized(s).skip(0) =~= sanitized(s));
}

/// Where the clean form of a name still has an artist prefix, as that of
/// "A - B - C" has, cleaning it again gives a shorter name.
pub proof fn lemma_second_prefix_is_removed(s: Seq<char>)
    requires
        artist_prefix_len(sanitized(s)) > 0,
    ensures
        sanitized(sanitized(s)).len() < sanitized(s).len(),
{
    lemma_sanitized_again(s);
    lemma_artist_prefix_len(sanitized(s));
}

/// Compiles `pattern` with `regex::Regex::new` and replaces its first match
/// in `text` with `regex::Regex::replace`.
///
/// Trusted for the prefix pattern only. There `^` matches at the start of the
/// text alone, `.` matches any character but a line feed, and the lazy `*?`
/// takes as few characters as will do, so the one possible match is the
/// artist prefix.
#[verifier::external_body]
fn replace_first(pattern: &str, text: &str, with: &str) -> (out: String)
    requires
        pattern@ == ARTIST_PREFIX_PATTERN@,
        with@ == Seq::<char>::empty(),
    ensures
        out@ == without_artist_prefix(text@),
{
    Regex::new(pattern).unwrap().replace(text, with).into_owned()
}

/// Compiles `pattern` with `regex::Regex::new` and replaces all its matches
/// in `text` with `regex::Regex::replace_all`, which takes the matches from
/// left to right, each starting at the first place behind the one before
/// where the pattern matches.
///
/// Trusted for the annotation pattern with an empty replacement and for the
/// spaced-dot pattern with the replacement ".". In both, `\s` is the class of
/// characters with the property `White_Space`; the greedy `\s*` and `\s+`
/// take the whole run of white space, and `[^)]*` runs to the next ')'.
#[verifier::external_body]
fn replace_all(pattern: &str, text: &str, with: &str) -> (out: String)
    requires
        (pattern@ == ANNOTATION_PATTERN@ && with@ == Seq::<char>::empty()) || (pattern@
            == SPACED_DOT_PATTERN@ && with@ == seq!['.']),
    ensures
        pattern@ == ANNOTATION_PATTERN@ ==> out@ == without_annotations(text@),
        pattern@ == SPACED_DOT_PATTERN@ ==> out@ == with_tight_dots(text@),
{
    Regex::new(pattern).unwrap().replace_all(text, with).into_owned()
}

/// Cleans a file name: removes its artist prefix, its annotations and the
/// white space in front of its dots.
pub fn sanitize(filename: &str) -> (clean: String)
    ensures
        clean@ == sanitized(filename@),
{
    proof {
        reveal_strlit("");
        reveal_strlit(".");
        reveal_strlit("\\s*\\([^)]*\\)");
        reveal_strlit("\\s+\\.");
        assert(""@ == Seq::<char>::empty());
        assert("."@ == seq!['.']);
        assert(ANNOTATION_PATTERN@.len() != SPACED_DOT_PATTERN@.len());
    }
    let bare = replace_first(ARTIST_PREFIX_PATTERN, filename, "");
    let plain = replace_all(ANNOTATION_PATTERN, bare.as_str(), "");
    replace_all(SPACED_DOT_PATTERN, plain.as_str(), ".")
}

} // verus!
