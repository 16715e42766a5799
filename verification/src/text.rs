//! Character-level string operations used to build yt-dlp command lines.
//!
//! Every operation here is stated over the `Seq<char>` view of a string,
//! so the command-building code can be specified in terms of whole-string
//! concatenation.

use vstd::prelude::*;
use vstd::string::*;

verus! {

// ------------------------------------------------------------------
// Specifications
// ------------------------------------------------------------------

/// `s` with every trailing `'/'` removed (the effect of `trim_end_matches('/')`).
pub open spec fn without_trailing_slashes(s: Seq<char>) -> Seq<char>
    decreases s.len(),
{
    if s.len() > 0 && s.last() == '/' {
        without_trailing_slashes(s.drop_last())
    } else {
        s
    }
}

/// The Unicode `White_Space` property, which `char::is_whitespace` tests.
pub open spec fn is_white_space(c: char) -> bool {
    let v = c as u32;
    ||| 0x09 <= v <= 0x0d
    ||| v == 0x20
    ||| v == 0x85
    ||| v == 0xa0
    ||| v == 0x1680
    ||| 0x2000 <= v <= 0x200a
    ||| v == 0x2028
    ||| v == 0x2029
    ||| v == 0x202f
    ||| v == 0x205f
    ||| v == 0x3000
}

/// A string that trims to nothing: every character is white space.
pub open spec fn is_blank(s: Seq<char>) -> bool {
    forall|i: int| 0 <= i < s.len() ==> is_white_space(#[trigger] s[i])
}

/// Splitting of `s` at runs of white space, where `word` holds the characters
/// of a word that started before `s`.
pub open spec fn words_after(s: Seq<char>, word: Seq<char>) -> Seq<Seq<char>>
    decreases s.len(),
{
    if s.len() == 0 {
        if word.len() == 0 {
            seq![]
        } else {
            seq![word]
        }
    } else if is_white_space(s[0]) {
        if word.len() == 0 {
            words_after(s.drop_first(), seq![])
        } else {
            seq![word] + words_after(s.drop_first(), seq![])
        }
    } else {
        words_after(s.drop_first(), word.push(s[0]))
    }
}

/// The words of `s`: its maximal runs of non-white-space characters, in order
/// (what `split_whitespace` yields).
pub open spec fn words(s: Seq<char>) -> Seq<Seq<char>> {
    words_after(s, seq![])
}

/// The words of every part, one part after the other.
pub open spec fn words_of_each(parts: Seq<Seq<char>>) -> Seq<Seq<char>>
    decreases parts.len(),
{
    if parts.len() == 0 {
        seq![]
    } else {
        words_of_each(parts.drop_last()) + words(parts.last())
    }
}

/// The parts joined with `sep` between neighbours (what `join(sep)` yields).
pub open spec fn joined(parts: Seq<Seq<char>>, sep: Seq<char>) -> Seq<char>
    decreases parts.len(),
{
    if parts.len() == 0 {
        seq![]
    } else if parts.len() == 1 {
        parts[0]
    } else {
        joined(parts.drop_last(), sep) + sep + parts.last()
    }
}

/// `p` is a prefix of `s`.
pub open spec fn has_prefix(s: Seq<char>, p: Seq<char>) -> bool {
    p.len() <= s.len() && s.subrange(0, p.len() as int) == p
}

/// `p` occurs somewhere in `s`.
pub open spec fn has_infix(s: Seq<char>, p: Seq<char>) -> bool {
    exists|i: int| 0 <= i <= s.len() - p.len() && #[trigger] s.subrange(i, i + p.len()) == p
}

// ------------------------------------------------------------------
// Executable operations
// ------------------------------------------------------------------

/// Removes every trailing `'/'` from `s`.
pub fn trim_end_slashes(s: &str) -> (r: &str)
    ensures
        r@ == without_trailing_slashes(s@),
{
    let n = s.unicode_len();
    let mut end = n;
    assert(s@.subrange(0, n as int) =~= s@);
    while end > 0 && s.get_char(end - 1) == '/'
        invariant
            n == s@.len(),
            end <= n,
            without_trailing_slashes(s@) == without_trailing_slashes(s@.subrange(0, end as int)),
        decreases end,
    {
        assert(s@.subrange(0, end as int).drop_last() =~= s@.subrange(0, end - 1));
        end = end - 1;
    }
    s.substring_char(0, end)
}

/// Whether `c` has the Unicode `White_Space` property.
pub fn is_white_space_char(c: char) -> (r: bool)
    ensures
        r == is_white_space(c),
{
    let v = c as u32;
    (0x09 <= v && v <= 0x0d) || v == 0x20 || v == 0x85 || v == 0xa0 || v == 0x1680 || (0x2000 <= v
        && v <= 0x200a) || v == 0x2028 || v == 0x2029 || v == 0x202f || v == 0x205f || v == 0x3000
}

/// Whether `s` consists of white space only (so that `s.trim()` is empty).
pub fn is_blank_str(s: &str) -> (r: bool)
    ensures
        r == is_blank(s@),
{
    let n = s.unicode_len();
    let mut i: usize = 0;
    while i < n
        invariant
            n == s@.len(),
            i <= n,
            forall|k: int| 0 <= k < i ==> is_white_space(#[trigger] s@[k]),
        decreases n - i,
    {
        if !is_white_space_char(s.get_char(i)) {
            return false;
        }
        i = i + 1;
    }
    true
}

/// Character-wise equality of two strings.
pub fn str_equal(a: &str, b: &str) -> (r: bool)
    ensures
        r == (a@ == b@),
{
    let n = a.unicode_len();
    let m = b.unicode_len();
    if n != m {
        return false;
    }
    let mut i: usize = 0;
    while i < n
        invariant
            n == a@.len(),
            m == b@.len(),
            n == m,
            i <= n,
            forall|k: int| 0 <= k < i ==> a@[k] == b@[k],
        decreases n - i,
    {
        if a.get_char(i) != b.get_char(i) {
            return false;
        }
        i = i + 1;
    }
    assert(a@ =~= b@);
    true
}

/// Whether `p` occurs in `s` starting at character position `at`.
fn occurs_at(s: &str, p: &str, at: usize) -> (r: bool)
    requires
        at + p@.len() <= s@.len(),
        s@.len() <= usize::MAX,
    ensures
        r == (s@.subrange(at as int, at + p@.len()) == p@),
{
    let m = p.unicode_len();
    let mut k: usize = 0;
    while k < m
        invariant
            m == p@.len(),
            at + m <= s@.len(),
            s@.len() <= usize::MAX,
            k <= m,
            forall|j: int| 0 <= j < k ==> s@[at + j] == p@[j],
        decreases m - k,
    {
        if s.get_char(at + k) != p.get_char(k) {
            assert(s@.subrange(at as int, at + p@.len())[k as int] != p@[k as int]);
            return false;
        }
        k = k + 1;
    }
    assert(s@.subrange(at as int, at + p@.len()) =~= p@);
    true
}

/// Whether `s` starts with `p`.
pub fn starts_with_str(s: &str, p: &str) -> (r: bool)
    ensures
        r == has_prefix(s@, p@),
{
    let n = s.unicode_len();
    let m = p.unicode_len();
    if m > n {
        return false;
    }
    occurs_at(s, p, 0)
}

/// Whether `p` occurs anywhere in `s`.
pub fn contains_str(s: &str, p: &str) -> (r: bool)
    ensures
        r == has_infix(s@, p@),
{
    let n = s.unicode_len();
    let m = p.unicode_len();
    if m > n {
        return false;
    }
    if m == 0 {
        assert(s@.subrange(0, 0 + p@.len() as int) =~= p@);
        return true;
    }
    let mut i: usize = 0;
    while i <= n - m
        invariant
            n == s@.len(),
            m == p@.len(),
            0 < m <= n,
            i <= n - m + 1,
            forall|j: int| 0 <= j < i ==> #[trigger] s@.subrange(j, j + m) != p@,
        decreases n - m + 1 - i,
    {
        if occurs_at(s, p, i) {
            return true;
        }
        i = i + 1;
    }
    false
}

/// The words of `s` (the pieces that `split_whitespace` yields), as owned strings.
pub fn split_words(s: &str) -> (r: Vec<String>)
    ensures
        r.deep_view() == words(s@),
{
    let n = s.unicode_len();
    let mut out: Vec<String> = Vec::new();
    let mut start: usize = 0;
    let mut i: usize = 0;
    assert(s@.skip(0) =~= s@);
    assert(s@.subrange(0, 0) =~= Seq::<char>::empty());
    assert(out.deep_view() =~= Seq::<Seq<char>>::empty());
    while i < n
        invariant
            n == s@.len(),
            start <= i <= n,
            words(s@) == out.deep_view() + words_after(
                s@.skip(i as int),
                s@.subrange(start as int, i as int),
            ),
        decreases n - i,
    {
        let c = s.get_char(i);
        let ghost rest = s@.skip(i as int);
        let ghost word = s@.subrange(start as int, i as int);
        assert(rest[0] == c);
        assert(rest.drop_first() =~= s@.skip(i + 1));
        if is_white_space_char(c) {
            if start < i {
                let piece = s.substring_char(start, i).to_owned();
                let ghost before = out.deep_view();
                out.push(piece);
                assert(out.deep_view() =~= before.push(word));
            }
            start = i + 1;
            assert(s@.subrange(start as int, (i + 1) as int) =~= Seq::<char>::empty());
        } else {
            assert(word.push(c) =~= s@.subrange(start as int, (i + 1) as int));
        }
        i = i + 1;
    }
    let ghost last_word = s@.subrange(start as int, n as int);
    assert(s@.skip(n as int) =~= Seq::<char>::empty());
    if start < n {
        let piece = s.substring_char(start, n).to_owned();
        let ghost before = out.deep_view();
        out.push(piece);
        assert(out.deep_view() =~= before + seq![last_word]);
    } else {
        assert(out.deep_view() =~= out.deep_view() + Seq::<Seq<char>>::empty());
    }
    out
}

// ------------------------------------------------------------------
// Laws
// ------------------------------------------------------------------

/// The characters of `s` that are not white space, in order.
pub open spec fn non_white(s: Seq<char>) -> Seq<char>
    decreases s.len(),
{
    if s.len() == 0 {
        seq![]
    } else if is_white_space(s[0]) {
        non_white(s.drop_first())
    } else {
        seq![s[0]] + non_white(s.drop_first())
    }
}

/// A word: a non-empty run of characters that are not white space.
pub open spec fn is_word(w: Seq<char>) -> bool {
    w.len() > 0 && forall|k: int| 0 <= k < w.len() ==> !is_white_space(#[trigger] w[k])
}

proof fn lemma_words_after(s: Seq<char>, w: Seq<char>)
    requires
        forall|k: int| 0 <= k < w.len() ==> !is_white_space(#[trigger] w[k]),
    ensures
        forall|i: int| 0 <= i < words_after(s, w).len() ==> is_word(#[trigger] words_after(s, w)[i]),
        words_after(s, w).flatten() == w + non_white(s),
    decreases s.len(),
{
    if s.len() == 0 {
        if w.len() > 0 {
            assert(seq![w].drop_first() =~= Seq::<Seq<char>>::empty());
            assert(seq![w].flatten() == w + seq![w].drop_first().flatten());
        }
        assert(w + Seq::<char>::empty() =~= w);
    } else {
        let rest = s.drop_first();
        if is_white_space(s[0]) {
            lemma_words_after(rest, seq![]);
            assert(Seq::<char>::empty() + non_white(rest) =~= non_white(rest));
            if w.len() > 0 {
                let tail = words_after(rest, seq![]);
                assert((seq![w] + tail).drop_first() =~= tail);
                assert((seq![w] + tail).first() == w);
                assert((seq![w] + tail).flatten() == w + tail.flatten());
                assert(non_white(s) == non_white(rest));
                assert forall|i: int| 0 <= i < (seq![w] + tail).len() implies is_word(
                    #[trigger] (seq![w] + tail)[i],
                ) by {
                    if i > 0 {
                        assert((seq![w] + tail)[i] == tail[i - 1]);
                    }
                }
            } else {
                assert(w + non_white(s) =~= non_white(rest));
            }
        } else {
            let w2 = w.push(s[0]);
            assert forall|k: int| 0 <= k < w2.len() implies !is_white_space(#[trigger] w2[k]) by {
                if k < w.len() {
                    assert(w2[k] == w[k]);
                }
            }
            lemma_words_after(rest, w2);
            assert(w2 + non_white(rest) =~= w + (seq![s[0]] + non_white(rest)));
        }
    }
}

/// Splitting at white space: every word is non-empty and free of white space,
/// and the words, put back together, are the characters of `s` that are not
/// white space.
pub proof fn lemma_words_are_the_non_white_runs(s: Seq<char>)
    ensures
        forall|i: int| 0 <= i < words(s).len() ==> is_word(#[trigger] words(s)[i]),
        words(s).flatten() == non_white(s),
{
    lemma_words_after(s, seq![]);
    assert(Seq::<char>::empty() + non_white(s) =~= non_white(s));
}

/// Splitting `a`, a space and `b` at white space gives the words of `a`
/// followed by the words of `b`, where `w` holds a word begun before `a`.
proof fn lemma_words_after_space(a: Seq<char>, b: Seq<char>, w: Seq<char>)
    ensures
        words_after(a + seq![' '] + b, w) == words_after(a, w) + words(b),
    decreases a.len(),
{
    let s = a + seq![' '] + b;
    if a.len() == 0 {
        assert(s =~= seq![' '] + b);
        assert(s.drop_first() =~= b);
        assert(is_white_space(s[0]));
        if w.len() == 0 {
            assert(words_after(a, w) + words(b) =~= words(b));
        }
    } else {
        let rest = a.drop_first();
        assert(s.drop_first() =~= rest + seq![' '] + b);
        assert(s[0] == a[0]);
        if is_white_space(a[0]) {
            lemma_words_after_space(rest, b, seq![]);
            if w.len() > 0 {
                assert(seq![w] + (words_after(rest, seq![]) + words(b)) =~= (seq![w] + words_after(
                    rest,
                    seq![],
                )) + words(b));
            }
        } else {
            lemma_words_after_space(rest, b, w.push(a[0]));
        }
    }
}

/// Joining parts with a space and splitting the result at white space gives
/// the words of each part, one part after the other.
pub proof fn lemma_words_of_joined(parts: Seq<Seq<char>>)
    ensures
        words(joined(parts, " "@)) == words_of_each(parts),
    decreases parts.len(),
{
    if parts.len() == 0 {
        assert(words(seq![]) == Seq::<Seq<char>>::empty());
    } else if parts.len() == 1 {
        assert(parts.drop_last().len() == 0);
        assert(words_of_each(parts.drop_last()) =~= Seq::<Seq<char>>::empty());
        assert(Seq::<Seq<char>>::empty() + words(parts.last()) =~= words(parts.last()));
    } else {
        reveal_strlit(" ");
        assert(" "@ =~= seq![' ']);
        lemma_words_of_joined(parts.drop_last());
        lemma_words_after_space(joined(parts.drop_last(), " "@), parts.last(), seq![]);
    }
}

} // verus!
