//! Case normalization and key-path composition.
//!
//! A key segment is normalized by splitting it on case transitions
//! (a lower-case letter followed by an upper-case letter) and on any
//! non-alphanumeric separator, upper-casing every resulting token, and
//! joining the tokens with `_`. Normalization is idempotent; see
//! [`lemma_normalize_idempotent`].
//!
//! Keys are treated as ASCII, which is what environment-variable names can
//! carry portably: only ASCII letters and digits are token characters, and
//! every other character — a letter outside ASCII included — acts as a
//! separator and is dropped from the key.

use vstd::prelude::*;

use crate::text::push_char;

verus! {

/// An ASCII lower-case letter.
pub open spec fn is_lower_char(c: char) -> bool {
    97 <= c as u32 <= 122
}

/// An ASCII upper-case letter.
pub open spec fn is_upper_char(c: char) -> bool {
    65 <= c as u32 <= 90
}

/// An ASCII decimal digit.
pub open spec fn is_digit_char(c: char) -> bool {
    48 <= c as u32 <= 57
}

/// A character that may appear inside a token: an ASCII letter or digit.
/// Everything else — a letter outside ASCII included — separates tokens.
pub open spec fn is_word_char(c: char) -> bool {
    is_lower_char(c) || is_upper_char(c) || is_digit_char(c)
}

/// The upper-case form of an ASCII letter; other characters are unchanged.
pub open spec fn upper_of(c: char) -> char {
    if is_lower_char(c) {
        (((c as u32) - 32) as u8) as char
    } else {
        c
    }
}

/// The tail of the normalized form of `s`, starting at position `i`.
///
/// The three flags carry the state of the left-to-right scan: `seen` records
/// whether any token character has been emitted yet, `gap` whether a
/// separator has been read since the last token character, and `prev_lower`
/// whether the last token character was a lower-case letter.
pub open spec fn norm_from(s: Seq<char>, i: int, seen: bool, gap: bool, prev_lower: bool) -> Seq<
    char,
>
    decreases s.len() - i,
{
    if i < 0 || i >= s.len() {
        Seq::empty()
    } else {
        let c = s[i];
        if is_word_char(c) {
            let sep = seen && (gap || (prev_lower && is_upper_char(c)));
            let head = if sep {
                seq!['_', upper_of(c)]
            } else {
                seq![upper_of(c)]
            };
            head + norm_from(s, i + 1, true, false, is_lower_char(c))
        } else {
            norm_from(s, i + 1, seen, true, prev_lower)
        }
    }
}

/// The normalized (upper-snake-case) form of a key segment.
pub open spec fn normalize_spec(s: Seq<char>) -> Seq<char> {
    norm_from(s, 0, false, false, false)
}

/// A composed key path: the normalized segment, prefixed with `prefix` and
/// `_` when the prefix is not empty.
pub open spec fn compose_spec(prefix: Seq<char>, segment: Seq<char>) -> Seq<char> {
    if prefix.len() == 0 {
        normalize_spec(segment)
    } else {
        prefix + seq!['_'] + normalize_spec(segment)
    }
}

/// Every character of a normalized key is an upper-case letter, a digit, or
/// the joiner `_`.
pub open spec fn canon_chars(q: Seq<char>) -> bool {
    forall|k: int|
        0 <= k < q.len() ==> is_upper_char(#[trigger] q[k]) || is_digit_char(q[k]) || q[k] == '_'
}

/// In a normalized key every `_` is immediately followed by a token
/// character; so a normalized key neither ends with `_` nor contains `__`.
pub open spec fn canon_separated(q: Seq<char>) -> bool {
    forall|k: int|
        0 <= k < q.len() && (#[trigger] q[k]) == '_' ==> k + 1 < q.len() && q[k + 1] != '_'
}

/// The shape every normalized key has: canonical characters, single interior
/// joiners, and no leading joiner.
pub open spec fn is_canonical(q: Seq<char>) -> bool {
    &&& canon_chars(q)
    &&& canon_separated(q)
    &&& q.len() > 0 ==> q[0] != '_'
}

/// The output of the normalization scan is canonical in shape, from any scan
/// state; with `seen` still false it additionally has no leading joiner.
proof fn lemma_norm_shape(s: Seq<char>, i: int, seen: bool, gap: bool, prev_lower: bool)
    ensures
        canon_chars(norm_from(s, i, seen, gap, prev_lower)),
        canon_separated(norm_from(s, i, seen, gap, prev_lower)),
        !seen && norm_from(s, i, seen, gap, prev_lower).len() > 0 ==> norm_from(
            s,
            i,
            seen,
            gap,
            prev_lower,
        )[0] != '_',
    decreases s.len() - i,
{
    if i < 0 || i >= s.len() {
    } else {
        let c = s[i];
        if is_word_char(c) {
            let sep = seen && (gap || (prev_lower && is_upper_char(c)));
            let head = if sep {
                seq!['_', upper_of(c)]
            } else {
                seq![upper_of(c)]
            };
            let rest = norm_from(s, i + 1, true, false, is_lower_char(c));
            let out = head + rest;
            lemma_norm_shape(s, i + 1, true, false, is_lower_char(c));
            assert(is_upper_char(upper_of(c)) || is_digit_char(upper_of(c)));
            assert forall|k: int| 0 <= k < out.len() implies is_upper_char(#[trigger] out[k])
                || is_digit_char(out[k]) || out[k] == '_' by {
                if k >= head.len() {
                    assert(out[k] == rest[k - head.len()]);
                }
            }
            assert forall|k: int| 0 <= k < out.len() && (#[trigger] out[k]) == '_' implies k + 1
                < out.len() && out[k + 1] != '_' by {
                if k < head.len() {
                    assert(sep && k == 0);
                    assert(out[1] == upper_of(c));
                } else {
                    assert(out[k] == rest[k - head.len()]);
                    assert(rest[k - head.len() + 1] != '_');
                    assert(out[k + 1] == rest[k - head.len() + 1]);
                }
            }
            assert(out[0] == head[0]);
        } else {
            lemma_norm_shape(s, i + 1, seen, true, prev_lower);
        }
    }
}

/// Re-scanning a canonical key reproduces it exactly, up to one pending
/// joiner owed from a preceding `_`.
proof fn lemma_norm_canonical_fixed(q: Seq<char>, i: int)
    requires
        is_canonical(q),
        0 <= i <= q.len(),
    ensures
        norm_from(q, i, i > 0, i > 0 && q[i - 1] == '_', false) == (if i < q.len() && i > 0 && q[i
            - 1] == '_' {
            seq!['_']
        } else {
            Seq::<char>::empty()
        }) + q.skip(i),
    decreases q.len() - i,
{
    let pending: Seq<char> = if i < q.len() && i > 0 && q[i - 1] == '_' {
        seq!['_']
    } else {
        Seq::<char>::empty()
    };
    if i == q.len() {
        assert(norm_from(q, i, i > 0, i > 0 && q[i - 1] == '_', false) =~= pending + q.skip(i));
    } else {
        let c = q[i];
        if c == '_' {
            assert(!is_word_char(c)) by {
                assert('_' as u32 == 95);
            }
            assert(i > 0);  // no leading joiner
            assert(q[i - 1] != '_');  // no double joiner
            lemma_norm_canonical_fixed(q, i + 1);
            assert(norm_from(q, i, true, q[i - 1] == '_', false) == norm_from(q, i + 1, true, true, false));
            assert(q.skip(i) =~= seq!['_'] + q.skip(i + 1));
            assert(pending + q.skip(i) =~= seq!['_'] + q.skip(i + 1));
        } else {
            assert(is_upper_char(c) || is_digit_char(c));
            assert(is_word_char(c));
            assert(!is_lower_char(c));
            assert(upper_of(c) == c);
            let seen = i > 0;
            let gap = i > 0 && q[i - 1] == '_';
            let sep = seen && gap;
            let head = if sep {
                seq!['_', c]
            } else {
                seq![c]
            };
            lemma_norm_canonical_fixed(q, i + 1);
            assert(q[(i + 1) - 1] != '_');
            assert(norm_from(q, i + 1, true, false, false) == q.skip(i + 1));
            assert(norm_from(q, i, seen, gap, false) == head + q.skip(i + 1));
            assert(head + q.skip(i + 1) =~= pending + q.skip(i));
        }
    }
}

/// Normalized keys are canonical in shape.
pub proof fn lemma_normalize_canonical(s: Seq<char>)
    ensures
        is_canonical(normalize_spec(s)),
{
    lemma_norm_shape(s, 0, false, false, false);
}

/// Normalization is idempotent: normalizing an already-normalized segment is
/// a no-op.
pub proof fn lemma_normalize_idempotent(s: Seq<char>)
    ensures
        normalize_spec(normalize_spec(s)) == normalize_spec(s),
{
    lemma_normalize_canonical(s);
    let q = normalize_spec(s);
    lemma_norm_canonical_fixed(q, 0);
    assert(Seq::<char>::empty() + q.skip(0) =~= q);
}

/// Normalizes one key segment to upper-snake-case.
pub fn normalize(segment: &str) -> (r: String)
    ensures
        r@ == normalize_spec(segment@),
{
    let n = segment.unicode_len();
    let mut out = String::new();
    let mut i: usize = 0;
    let mut seen = false;
    let mut gap = false;
    let mut prev_lower = false;
    while i < n
        invariant
            i <= n,
            n == segment@.len(),
            out@ + norm_from(segment@, i as int, seen, gap, prev_lower) == normalize_spec(
                segment@,
            ),
        decreases n - i,
    {
        let c = segment.get_char(i);
        let u = c as u32;
        let ghost prev_out = out@;
        if (97 <= u && u <= 122) || (65 <= u && u <= 90) || (48 <= u && u <= 57) {
            let is_low = 97 <= u && u <= 122;
            let is_up = 65 <= u && u <= 90;
            let sep = seen && (gap || (prev_lower && is_up));
            if sep {
                push_char(&mut out, '_');
            }
            let up = if is_low {
                ((u - 32) as u8) as char
            } else {
                c
            };
            push_char(&mut out, up);
            proof {
                assert(up == upper_of(c));
                let head = if sep {
                    seq!['_', upper_of(c)]
                } else {
                    seq![upper_of(c)]
                };
                assert(out@ =~= prev_out + head);
                assert(prev_out + (head + norm_from(segment@, i + 1, true, false, is_low)) =~= (
                prev_out + head) + norm_from(segment@, i + 1, true, false, is_low));
            }
            seen = true;
            gap = false;
            prev_lower = is_low;
        } else {
            gap = true;
        }
        i = i + 1;
    }
    proof {
        assert(out@ + norm_from(segment@, n as int, seen, gap, prev_lower) =~= out@);
    }
    out
}

/// Composes a prefix and a raw segment into one key path.
pub fn compose(prefix: &str, segment: &str) -> (r: String)
    ensures
        r@ == compose_spec(prefix@, segment@),
{
    let n = normalize(segment);
    if prefix.unicode_len() == 0 {
        n
    } else {
        let mut out = prefix.to_owned();
        push_char(&mut out, '_');
        out.append(n.as_str());
        proof {
            assert(out@ =~= prefix@ + seq!['_'] + n@);
        }
        out
    }
}

} // verus!
