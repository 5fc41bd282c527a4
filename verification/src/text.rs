//! Text primitives shared by the notification code: literal substitution
//! and decimal rendering, each proved against a short mathematical
//! definition over sequences of characters.

use vstd::prelude::*;

verus! {

/// The text obtained from `text` by replacing, from left to right, every
/// occurrence of `pattern` that does not overlap an earlier one with
/// `replacement`. An empty pattern matches before every character and at
/// the end of the text.
pub open spec fn replace_all(text: Seq<char>, pattern: Seq<char>, replacement: Seq<char>) -> Seq<
    char,
>
    decreases text.len(),
{
    if pattern.len() == 0 {
        if text.len() == 0 {
            replacement
        } else {
            replacement + seq![text[0]] + replace_all(text.skip(1), pattern, replacement)
        }
    } else if text.len() < pattern.len() {
        text
    } else if text.take(pattern.len() as int) == pattern {
        replacement + replace_all(text.skip(pattern.len() as int), pattern, replacement)
    } else {
        seq![text[0]] + replace_all(text.skip(1), pattern, replacement)
    }
}

/// `pattern` occurs in `text` at offset `at`.
pub open spec fn occurs_at(text: Seq<char>, pattern: Seq<char>, at: int) -> bool {
    &&& 0 <= at
    &&& at + pattern.len() <= text.len()
    &&& text.subrange(at, at + pattern.len()) == pattern
}

/// `pattern` occurs somewhere in `text`.
pub open spec fn contains(text: Seq<char>, pattern: Seq<char>) -> bool {
    exists|at: int| occurs_at(text, pattern, at)
}

/// `needle` can neither begin nor end inside `inserted`, nor hold all of
/// it: an occurrence of `needle` in a text has no part of an `inserted`
/// that stands in that text.
pub open spec fn alien(inserted: Seq<char>, needle: Seq<char>) -> bool {
    &&& needle.len() > 0
    &&& !contains(needle, inserted)
    &&& forall|k: int|
        0 <= k < inserted.len() ==> inserted[k] != needle[0] && inserted[k] != needle.last()
}

/// A beginning of the replaced text that no replacement can have a part
/// in is a beginning of the text as it was before.
proof fn lemma_prefix_survives(
    text: Seq<char>,
    pattern: Seq<char>,
    replacement: Seq<char>,
    prefix: Seq<char>,
)
    requires
        pattern.len() > 0,
        prefix.len() <= replace_all(text, pattern, replacement).len(),
        replace_all(text, pattern, replacement).take(prefix.len() as int) == prefix,
        prefix.len() > 0 ==> forall|k: int|
            0 <= k < replacement.len() ==> replacement[k] != prefix.last(),
        !contains(prefix, replacement),
    ensures
        prefix.len() <= text.len(),
        text.take(prefix.len() as int) == prefix,
    decreases text.len(),
{
    let replaced = replace_all(text, pattern, replacement);
    if prefix.len() == 0 {
        assert(text.take(0) =~= prefix);
    } else if text.len() < pattern.len() {
    } else if text.take(pattern.len() as int) == pattern {
        if prefix.len() >= replacement.len() {
            assert(prefix.subrange(0, replacement.len() as int) =~= replacement);
            assert(occurs_at(prefix, replacement, 0));
        } else {
            assert(prefix.last() == replaced[prefix.len() - 1]);
            assert(replaced[prefix.len() - 1] == replacement[prefix.len() - 1]);
        }
    } else {
        let rest = text.skip(1);
        let tail = prefix.skip(1);
        let replaced_rest = replace_all(rest, pattern, replacement);
        assert(replaced =~= seq![text[0]] + replaced_rest);
        assert(replaced_rest.take(tail.len() as int) =~= tail) by {
            assert forall|i: int| 0 <= i < tail.len() implies replaced_rest[i] == tail[i] by {
                assert(replaced.take(prefix.len() as int)[i + 1] == prefix[i + 1]);
            }
        }
        if tail.len() > 0 {
            assert(tail.last() == prefix.last());
        }
        assert(!contains(tail, replacement)) by {
            if contains(tail, replacement) {
                let at = choose|at: int| occurs_at(tail, replacement, at);
                assert(prefix.subrange(at + 1, at + 1 + replacement.len()) =~= tail.subrange(
                    at,
                    at + replacement.len(),
                ));
                assert(occurs_at(prefix, replacement, at + 1));
            }
        }
        lemma_prefix_survives(rest, pattern, replacement, tail);
        assert(prefix[0] == replaced.take(prefix.len() as int)[0]);
        assert(text.take(prefix.len() as int) =~= prefix) by {
            assert forall|i: int| 0 <= i < prefix.len() implies text[i] == prefix[i] by {
                if i > 0 {
                    assert(rest.take(tail.len() as int)[i - 1] == tail[i - 1]);
                }
            }
        }
    }
}

/// An occurrence of `needle` in the replaced text was there before, and
/// `needle` is not the pattern, provided that `needle` can have no part of
/// a replacement.
pub proof fn lemma_occurrence_is_old(
    text: Seq<char>,
    pattern: Seq<char>,
    replacement: Seq<char>,
    needle: Seq<char>,
    at: int,
)
    requires
        pattern.len() > 0,
        alien(replacement, needle),
        occurs_at(replace_all(text, pattern, replacement), needle, at),
    ensures
        contains(text, needle),
        needle != pattern,
    decreases text.len(),
{
    let replaced = replace_all(text, pattern, replacement);
    let window = replaced.subrange(at, at + needle.len());
    assert(window[0] == replaced[at]);
    if text.len() < pattern.len() {
        assert(occurs_at(text, needle, at));
    } else if text.take(pattern.len() as int) == pattern {
        let rest = text.skip(pattern.len() as int);
        let replaced_rest = replace_all(rest, pattern, replacement);
        if at < replacement.len() {
            assert(replaced[at] == replacement[at]);
        } else {
            let shifted = at - replacement.len();
            assert(replaced_rest.subrange(shifted, shifted + needle.len()) =~= window);
            lemma_occurrence_is_old(rest, pattern, replacement, needle, shifted);
            let old_at = choose|old_at: int| occurs_at(rest, needle, old_at);
            assert(text.subrange(
                old_at + pattern.len(),
                old_at + pattern.len() + needle.len(),
            ) =~= rest.subrange(old_at, old_at + needle.len()));
            assert(occurs_at(text, needle, old_at + pattern.len()));
        }
    } else {
        let rest = text.skip(1);
        let replaced_rest = replace_all(rest, pattern, replacement);
        assert(replaced =~= seq![text[0]] + replaced_rest);
        if at > 0 {
            assert(replaced_rest.subrange(at - 1, at - 1 + needle.len()) =~= window);
            lemma_occurrence_is_old(rest, pattern, replacement, needle, at - 1);
            let old_at = choose|old_at: int| occurs_at(rest, needle, old_at);
            assert(text.subrange(old_at + 1, old_at + 1 + needle.len()) =~= rest.subrange(
                old_at,
                old_at + needle.len(),
            ));
            assert(occurs_at(text, needle, old_at + 1));
        } else {
            let tail = needle.skip(1);
            assert(replaced_rest.take(tail.len() as int) =~= tail) by {
                assert forall|i: int| 0 <= i < tail.len() implies replaced_rest[i] == tail[i] by {
                    assert(window[i + 1] == replaced[i + 1]);
                }
            }
            if tail.len() > 0 {
                assert(tail.last() == needle.last());
            }
            assert(!contains(tail, replacement)) by {
                if contains(tail, replacement) {
                    let inner = choose|inner: int| occurs_at(tail, replacement, inner);
                    assert(needle.subrange(inner + 1, inner + 1 + replacement.len())
                        =~= tail.subrange(inner, inner + replacement.len()));
                    assert(occurs_at(needle, replacement, inner + 1));
                }
            }
            lemma_prefix_survives(rest, pattern, replacement, tail);
            assert(text.subrange(0, needle.len() as int) =~= needle) by {
                assert forall|i: int| 0 <= i < needle.len() implies text[i] == needle[i] by {
                    if i > 0 {
                        assert(rest.take(tail.len() as int)[i - 1] == tail[i - 1]);
                    }
                }
            }
            assert(occurs_at(text, needle, 0));
            assert(text.take(needle.len() as int) =~= text.subrange(0, needle.len() as int));
        }
    }
}

/// Replacing a pattern leaves no occurrence of it behind, provided that it
/// can have no part of a replacement.
pub proof fn lemma_replace_all_removes(text: Seq<char>, pattern: Seq<char>, replacement: Seq<char>)
    requires
        alien(replacement, pattern),
    ensures
        !contains(replace_all(text, pattern, replacement), pattern),
{
    let replaced = replace_all(text, pattern, replacement);
    if contains(replaced, pattern) {
        let at = choose|at: int| occurs_at(replaced, pattern, at);
        lemma_occurrence_is_old(text, pattern, replacement, pattern, at);
    }
}

/// Replacing a pattern brings no occurrence of `needle` into a text that
/// had none, provided that `needle` can have no part of a replacement.
pub proof fn lemma_replace_all_adds_none(
    text: Seq<char>,
    pattern: Seq<char>,
    replacement: Seq<char>,
    needle: Seq<char>,
)
    requires
        pattern.len() > 0,
        alien(replacement, needle),
        !contains(text, needle),
    ensures
        !contains(replace_all(text, pattern, replacement), needle),
{
    let replaced = replace_all(text, pattern, replacement);
    if contains(replaced, needle) {
        let at = choose|at: int| occurs_at(replaced, needle, at);
        lemma_occurrence_is_old(text, pattern, replacement, needle, at);
    }
}

/// The decimal digit for `d`, where `0 <= d <= 9`.
pub open spec fn digit(d: int) -> char {
    if d == 0 {
        '0'
    } else if d == 1 {
        '1'
    } else if d == 2 {
        '2'
    } else if d == 3 {
        '3'
    } else if d == 4 {
        '4'
    } else if d == 5 {
        '5'
    } else if d == 6 {
        '6'
    } else if d == 7 {
        '7'
    } else if d == 8 {
        '8'
    } else {
        '9'
    }
}

/// The decimal numeral of a natural number, without leading zeros.
pub open spec fn decimal_nat(n: nat) -> Seq<char>
    decreases n,
{
    if n < 10 {
        seq![digit(n as int)]
    } else {
        decimal_nat(n / 10).push(digit((n % 10) as int))
    }
}

/// The decimal numeral of an integer, with a leading minus sign when it is
/// negative.
pub open spec fn decimal(n: int) -> Seq<char> {
    if n < 0 {
        seq!['-'] + decimal_nat((-n) as nat)
    } else {
        decimal_nat(n as nat)
    }
}

/// `String::push`: the character is appended to the text.
#[verifier::external_body]
fn push_char(text: &mut String, c: char)
    ensures
        final(text)@ == old(text)@.push(c),
{
    text.push(c);
}

/// The characters of `text`, in order.
pub fn chars_of(text: &str) -> (chars: Vec<char>)
    ensures
        chars@ == text@,
{
    let mut chars: Vec<char> = Vec::new();
    for c in it: text.chars()
        invariant
            chars.len() == it.index(),
            forall|i: int| 0 <= i < chars.len() ==> chars@[i] == it.seq()[i],
    {
        chars.push(c);
    }
    assert(chars@ =~= text@);
    chars
}

/// Whether `pattern` stands in `text` at offset `at`.
fn matches_at(text: &Vec<char>, pattern: &Vec<char>, at: usize) -> (found: bool)
    requires
        at <= text.len(),
    ensures
        found == occurs_at(text@, pattern@, at as int),
{
    if pattern.len() > text.len() - at {
        return false;
    }
    let mut k: usize = 0;
    while k < pattern.len()
        invariant
            k <= pattern.len(),
            at + pattern.len() <= text.len(),
            forall|j: int| 0 <= j < k ==> text@[at + j] == pattern@[j],
        decreases pattern.len() - k,
    {
        if text[at + k] != pattern[k] {
            proof {
                let window = text@.subrange(at as int, at + pattern.len());
                assert(window[k as int] == text@[at + k]);
            }
            return false;
        }
        k = k + 1;
    }
    assert(text@.subrange(at as int, at + pattern.len()) =~= pattern@);
    true
}

/// Replaces every occurrence of `pattern` in `text` with `replacement`.
pub fn replace(text: &str, pattern: &str, replacement: &str) -> (out: String)
    ensures
        out@ == replace_all(text@, pattern@, replacement@),
{
    let chars = chars_of(text);
    let needle = chars_of(pattern);
    let mut out = String::new();
    let mut at: usize = 0;
    proof {
        let whole = replace_all(chars@, needle@, replacement@);
        assert(chars@.skip(0) =~= chars@);
        assert(out@ + whole =~= whole);
    }
    if needle.len() == 0 {
        while at < chars.len()
            invariant
                at <= chars.len(),
                needle@.len() == 0,
                chars@ == text@,
                needle@ == pattern@,
                out@ + replace_all(chars@.skip(at as int), needle@, replacement@) == replace_all(
                    chars@,
                    needle@,
                    replacement@,
                ),
            decreases chars.len() - at,
        {
            let ghost before = out@;
            let ghost rest = chars@.skip(at as int);
            out.append(replacement);
            push_char(&mut out, chars[at]);
            proof {
                assert(rest.skip(1) =~= chars@.skip(at + 1));
                assert(out@ + replace_all(rest.skip(1), needle@, replacement@) =~= before
                    + replace_all(rest, needle@, replacement@));
            }
            at = at + 1;
        }
        out.append(replacement);
        return out;
    }
    while at < chars.len()
        invariant
            at <= chars.len(),
            needle@.len() > 0,
            chars@ == text@,
            needle@ == pattern@,
            out@ + replace_all(chars@.skip(at as int), needle@, replacement@) == replace_all(
                chars@,
                needle@,
                replacement@,
            ),
        decreases chars.len() - at,
    {
        let ghost before = out@;
        let ghost rest = chars@.skip(at as int);
        if matches_at(&chars, &needle, at) {
            out.append(replacement);
            proof {
                assert(rest.take(needle@.len() as int) =~= chars@.subrange(
                    at as int,
                    at + needle@.len(),
                ));
                assert(rest.skip(needle@.len() as int) =~= chars@.skip(at + needle@.len()));
                assert(out@ + replace_all(rest.skip(needle@.len() as int), needle@, replacement@)
                    =~= before + replace_all(rest, needle@, replacement@));
            }
            at = at + needle.len();
        } else {
            push_char(&mut out, chars[at]);
            proof {
                if rest.len() >= needle@.len() {
                    assert(rest.take(needle@.len() as int) =~= chars@.subrange(
                        at as int,
                        at + needle@.len(),
                    ));
                } else {
                    lemma_short_text_unchanged(rest, needle@, replacement@);
                }
                assert(rest.skip(1) =~= chars@.skip(at + 1));
                assert(out@ + replace_all(rest.skip(1), needle@, replacement@) =~= before
                    + replace_all(rest, needle@, replacement@));
            }
            at = at + 1;
        }
    }
    assert(chars@.skip(at as int) =~= Seq::<char>::empty());
    assert(out@ =~= out@ + Seq::<char>::empty());
    out
}

/// A text shorter than a non-empty pattern is left as it is, also when it
/// is unfolded one character at a time.
proof fn lemma_short_text_unchanged(text: Seq<char>, pattern: Seq<char>, replacement: Seq<char>)
    requires
        pattern.len() > 0,
        0 < text.len() < pattern.len(),
    ensures
        replace_all(text, pattern, replacement) == seq![text[0]] + replace_all(
            text.skip(1),
            pattern,
            replacement,
        ),
{
    assert(replace_all(text.skip(1), pattern, replacement) == text.skip(1));
    assert(text =~= seq![text[0]] + text.skip(1));
}

fn digit_char(d: u64) -> (c: char)
    requires
        d < 10,
    ensures
        c == digit(d as int),
{
    if d == 0 {
        '0'
    } else if d == 1 {
        '1'
    } else if d == 2 {
        '2'
    } else if d == 3 {
        '3'
    } else if d == 4 {
        '4'
    } else if d == 5 {
        '5'
    } else if d == 6 {
        '6'
    } else if d == 7 {
        '7'
    } else if d == 8 {
        '8'
    } else {
        '9'
    }
}

/// Appends the decimal numeral of `n` to `out`.
pub fn push_decimal(out: &mut String, n: u64)
    ensures
        final(out)@ == old(out)@ + decimal_nat(n as nat),
    decreases n,
{
    if n >= 10 {
        push_decimal(out, n / 10);
    }
    push_char(out, digit_char(n % 10));
    proof {
        if n >= 10 {
            assert(out@ =~= old(out)@ + decimal_nat(n as nat));
        } else {
            assert(old(out)@.push(digit(n as int)) =~= old(out)@ + decimal_nat(n as nat));
        }
    }
}

/// Appends the decimal numeral of the signed number `n` to `out`.
pub fn push_signed_decimal(out: &mut String, n: i64)
    ensures
        final(out)@ == old(out)@ + decimal(n as int),
{
    if n < 0 {
        push_char(out, '-');
        let magnitude: u64 = (-(n as i128)) as u64;
        push_decimal(out, magnitude);
        assert(out@ =~= old(out)@ + decimal(n as int));
    } else {
        push_decimal(out, n as u64);
    }
}

} // verus!
