//! Texts: their comparison, and the substitution of placeholders.

use vstd::prelude::*;
use vstd::string::*;

verus! {

/// The view of a string that may be missing.
pub open spec fn text_view(text: Option<String>) -> Option<Seq<char>> {
    match text {
        Some(s) => Some(s@),
        None => None,
    }
}

/// `String::push` of std appends one character to the string.
pub assume_specification[ String::push ](text: &mut String, c: char)
    ensures
        final(text)@ == old(text)@.push(c),
;

/// Whether two string slices hold the same text.
pub fn same_text(a: &str, b: &str) -> (r: bool)
    ensures
        r == (a@ == b@),
{
    a.to_owned() == b.to_owned()
}

/// `text` with every occurrence of `pattern` replaced by `with`. Occurrences
/// are found from the left and do not overlap: the search goes on behind an
/// occurrence once it is replaced. An empty pattern occurs nowhere.
pub open spec fn substituted(text: Seq<char>, pattern: Seq<char>, with: Seq<char>) -> Seq<char>
    decreases text.len(),
{
    if pattern.len() == 0 || text.len() < pattern.len() {
        text
    } else if text.subrange(0, pattern.len() as int) == pattern {
        with + substituted(text.skip(pattern.len() as int), pattern, with)
    } else {
        seq![text[0]] + substituted(text.skip(1), pattern, with)
    }
}

/// The characters of a text.
pub fn chars_of(text: &str) -> (chars: Vec<char>)
    ensures
        chars@ == text@,
{
    let mut chars: Vec<char> = Vec::new();
    for c in iter: text.chars()
        invariant
            iter.seq() == text@,
            chars@ == text@.take(iter.index() as int),
    {
        chars.push(c);
        assert(chars@ =~= text@.take(iter.index() + 1));
    }
    assert(text@.take(text@.len() as int) =~= text@);
    chars
}

/// Whether `pattern` stands in `text` at the place `at`.
fn occurs_at(text: &Vec<char>, pattern: &Vec<char>, at: usize) -> (r: bool)
    requires
        at + pattern.len() <= text.len(),
    ensures
        r == (text@.subrange(at as int, at + pattern.len()) == pattern@),
{
    let mut k: usize = 0;
    while k < pattern.len()
        invariant
            k <= pattern.len(),
            at + pattern.len() <= text.len(),
            forall|j: int| 0 <= j < k ==> text@[at + j] == pattern@[j],
        decreases pattern.len() - k,
    {
        if text[at + k] != pattern[k] {
            assert(text@.subrange(at as int, at + pattern.len())[k as int] != pattern@[k as int]);
            return false;
        }
        k = k + 1;
    }
    assert(text@.subrange(at as int, at + pattern.len()) =~= pattern@);
    true
}

/// Replaces every occurrence of `pattern` in `text` by `with`.
pub fn substitute(text: &str, pattern: &str, with: &str) -> (result: String)
    ensures
        result@ == substituted(text@, pattern@, with@),
{
    let source = chars_of(text);
    let sought = chars_of(pattern);
    let n = source.len();
    let m = sought.len();
    if m == 0 || n < m {
        return text.to_owned();
    }
    let mut result = String::new();
    let mut i: usize = 0;
    assert(text@.skip(0) =~= text@);
    while i < n
        invariant
            source@ == text@,
            sought@ == pattern@,
            n == text@.len(),
            m == pattern@.len(),
            0 < m <= n,
            i <= n,
            result@ + substituted(text@.skip(i as int), pattern@, with@) == substituted(
                text@,
                pattern@,
                with@,
            ),
        decreases n - i,
    {
        let ghost rest = text@.skip(i as int);
        let ghost done = result@;
        if n - i >= m {
            assert(rest.subrange(0, m as int) =~= text@.subrange(i as int, i + m));
        }
        if n - i >= m && occurs_at(&source, &sought, i) {
            result.append(with);
            i = i + m;
            proof {
                assert(rest.skip(m as int) =~= text@.skip(i as int));
                let tail = substituted(text@.skip(i as int), pattern@, with@);
                assert((done + with@) + tail =~= done + (with@ + tail));
            }
        } else {
            let c = source[i];
            result.push(c);
            i = i + 1;
            proof {
                assert(rest.skip(1) =~= text@.skip(i as int));
                let tail = substituted(text@.skip(i as int), pattern@, with@);
                if rest.len() < m {
                    assert(substituted(rest, pattern@, with@) == rest);
                    assert(tail == rest.skip(1));
                    assert(seq![c] + rest.skip(1) =~= rest);
                }
                assert(done.push(c) + tail =~= done + (seq![c] + tail));
            }
        }
    }
    assert(text@.skip(n as int) =~= Seq::<char>::empty());
    assert(result@ + Seq::<char>::empty() =~= result@);
    result
}

} // verus!
