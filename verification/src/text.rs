use vstd::prelude::*;
use vstd::string::StrSliceExecFns;
use vstd::utf8::{decode_utf8, valid_utf8};

verus! {

/// Whether `c` has the Unicode `White_Space` property, as `char::is_whitespace` decides it.
pub uninterp spec fn unicode_white_space(c: char) -> bool;

/// `char::is_whitespace`: whether `c` has the Unicode `White_Space` property.
/// Claimed: the result is `unicode_white_space(c)`, a function of `c` alone,
/// and, as std's documentation shows, a space, a line feed and a no-break
/// space are whitespace. The rest of the property's character set is not
/// stated: std's documentation defers it to the Unicode Character Database.
#[verifier::external_body]
fn is_whitespace(c: char) -> (r: bool)
    ensures
        r == unicode_white_space(c),
        (c == ' ' || c == '\n' || c == '\u{A0}') ==> r,
{
    c.is_whitespace()
}

/// `String::from_utf8`, with the error dropped. Claimed, as std documents it:
/// the bytes are accepted exactly when they are valid UTF-8, and then the
/// string holds the characters they encode.
#[verifier::external_body]
fn string_from_utf8(bytes: Vec<u8>) -> (r: Option<String>)
    ensures
        r is Some <==> valid_utf8(bytes@),
        r matches Some(s) ==> s@ == decode_utf8(bytes@),
{
    String::from_utf8(bytes).ok()
}

/// The characters of `bytes` read as UTF-8, or `None` when they are not valid UTF-8.
pub fn decode_utf8_chars(bytes: Vec<u8>) -> (r: Option<Vec<char>>)
    ensures
        r is Some <==> valid_utf8(bytes@),
        r matches Some(v) ==> v@ == decode_utf8(bytes@),
{
    match string_from_utf8(bytes) {
        Some(s) => Some(chars_of(s.as_str())),
        None => None,
    }
}

/// `pat` occurs in `s` at position `i`.
pub open spec fn occurs_at(s: Seq<char>, pat: Seq<char>, i: int) -> bool {
    0 <= i && i + pat.len() <= s.len() && s.subrange(i, i + pat.len()) == pat
}

/// `pat` occurs somewhere in `s`.
pub open spec fn contains_seq(s: Seq<char>, pat: Seq<char>) -> bool {
    exists|i: int| occurs_at(s, pat, i)
}

/// `s[i..j]` is one of the words of `s`: a non-empty run of non-whitespace
/// characters with whitespace, or the end of `s`, on either side.
pub open spec fn is_word(s: Seq<char>, i: int, j: int) -> bool {
    &&& 0 <= i < j <= s.len()
    &&& forall|k: int| i <= k < j ==> !unicode_white_space(#[trigger] s[k])
    &&& (i == 0 || unicode_white_space(s[i - 1]))
    &&& (j == s.len() || unicode_white_space(s[j]))
}

/// `word` is one of the whitespace-separated words of `s`.
pub open spec fn has_word(s: Seq<char>, word: Seq<char>) -> bool {
    exists|i: int, j: int| is_word(s, i, j) && s.subrange(i, j) == word
}

/// The characters of `s`, in order.
pub fn chars_of(s: &str) -> (v: Vec<char>)
    ensures
        v@ == s@,
{
    let n = s.unicode_len();
    let mut v: Vec<char> = Vec::new();
    let mut i: usize = 0;
    while i < n
        invariant
            n == s@.len(),
            i <= n,
            v@ == s@.subrange(0, i as int),
        decreases n - i,
    {
        v.push(s.get_char(i));
        i = i + 1;
    }
    v
}

/// Whether `pat` occurs in `s` at position `i`.
fn occurs_at_exec(s: &Vec<char>, pat: &Vec<char>, i: usize) -> (r: bool)
    requires
        i + pat@.len() <= s@.len(),
    ensures
        r == occurs_at(s@, pat@, i as int),
{
    let n = pat.len();
    let mut k: usize = 0;
    while k < n
        invariant
            n == pat@.len(),
            i + n <= s.len(),
            k <= n,
            forall|q: int| 0 <= q < k ==> s@[i + q] == pat@[q],
        decreases n - k,
    {
        if s[i + k] != pat[k] {
            assert(s@.subrange(i as int, i + n)[k as int] != pat@[k as int]);
            return false;
        }
        k = k + 1;
    }
    assert(s@.subrange(i as int, i + n) =~= pat@);
    true
}

/// Whether `pat` occurs anywhere in `s`.
pub fn contains_chars(s: &Vec<char>, pat: &Vec<char>) -> (r: bool)
    ensures
        r == contains_seq(s@, pat@),
{
    if pat.len() > s.len() {
        return false;
    }
    let last = s.len() - pat.len();
    let mut i: usize = 0;
    while i < last
        invariant
            last + pat@.len() == s@.len(),
            i <= last,
            forall|j: int| 0 <= j < i ==> !occurs_at(s@, pat@, j),
        decreases last - i,
    {
        if occurs_at_exec(s, pat, i) {
            return true;
        }
        i = i + 1;
    }
    occurs_at_exec(s, pat, last)
}

/// Two runs of non-whitespace characters that both end at `k` and both start
/// at the beginning of `s` or right after whitespace start at the same place.
proof fn lemma_run_start_unique(s: Seq<char>, a: int, b: int, k: int)
    requires
        0 <= a < k,
        0 <= b < k,
        k <= s.len(),
        forall|q: int| a <= q < k ==> !unicode_white_space(#[trigger] s[q]),
        forall|q: int| b <= q < k ==> !unicode_white_space(#[trigger] s[q]),
        a == 0 || unicode_white_space(s[a - 1]),
        b == 0 || unicode_white_space(s[b - 1]),
    ensures
        a == b,
{
    if a < b {
        assert(!unicode_white_space(s[b - 1]));
    } else if b < a {
        assert(!unicode_white_space(s[a - 1]));
    }
}

/// Whether `word` is one of the whitespace-separated words of `s`.
pub fn has_whitespace_word(s: &Vec<char>, word: &Vec<char>) -> (r: bool)
    ensures
        r == has_word(s@, word@),
{
    let n = s.len();
    let mut start: usize = 0;
    let mut in_word = false;
    let mut k: usize = 0;
    while k < n
        invariant
            n == s@.len(),
            k <= n,
            in_word <==> (k > 0 && !unicode_white_space(s@[k - 1])),
            in_word ==> start < k,
            in_word ==> (start == 0 || unicode_white_space(s@[start - 1])),
            in_word ==> forall|q: int| start <= q < k ==> !unicode_white_space(#[trigger] s@[q]),
            forall|i: int, j: int| is_word(s@, i, j) && j < k ==> s@.subrange(i, j) != word@,
        decreases n - k,
    {
        let c = s[k];
        if is_whitespace(c) {
            if in_word {
                if k - start == word.len() && occurs_at_exec(s, word, start) {
                    assert(is_word(s@, start as int, k as int));
                    return true;
                }
                assert forall|i: int, j: int| is_word(s@, i, j) && j < k + 1 implies s@.subrange(
                    i,
                    j,
                ) != word@ by {
                    if j == k {
                        lemma_run_start_unique(s@, i, start as int, k as int);
                        if s@.subrange(i, j) == word@ {
                            assert(occurs_at(s@, word@, start as int));
                        }
                    }
                }
            } else {
                assert forall|i: int, j: int| is_word(s@, i, j) && j < k + 1 implies s@.subrange(
                    i,
                    j,
                ) != word@ by {
                    if j == k {
                        assert(!unicode_white_space(s@[k - 1]));
                    }
                }
            }
            in_word = false;
        } else {
            if !in_word {
                start = k;
                in_word = true;
            }
        }
        k = k + 1;
    }
    if in_word && n - start == word.len() && occurs_at_exec(s, word, start) {
        assert(is_word(s@, start as int, n as int));
        return true;
    }
    assert forall|i: int, j: int| is_word(s@, i, j) implies s@.subrange(i, j) != word@ by {
        if j == n {
            if in_word {
                lemma_run_start_unique(s@, i, start as int, n as int);
                if s@.subrange(i, j) == word@ {
                    assert(occurs_at(s@, word@, start as int));
                }
            } else {
                assert(!unicode_white_space(s@[n - 1]));
            }
        }
    }
    false
}

/// A pattern found in a text fits in it, and a pattern placed anywhere in a
/// text is found there.
pub proof fn lemma_contains_placed(a: Seq<char>, pat: Seq<char>, b: Seq<char>)
    ensures
        contains_seq(a + pat + b, pat),
        forall|s: Seq<char>| #[trigger] contains_seq(s, pat) ==> pat.len() <= s.len(),
{
    assert((a + pat + b).subrange(a.len() as int, (a.len() + pat.len()) as int) =~= pat);
    assert(occurs_at(a + pat + b, pat, a.len() as int));
}

/// A word of a text is a non-empty piece of the text without whitespace;
/// a non-empty text without whitespace is its own single word; and a word
/// stays a word when more text is joined on after whitespace, on either side.
pub proof fn lemma_word_laws(s: Seq<char>, w: Seq<char>, t: Seq<char>, c: char)
    ensures
        has_word(s, w) ==> contains_seq(s, w) && w.len() > 0 && forall|k: int|
            0 <= k < w.len() ==> !unicode_white_space(#[trigger] w[k]),
        (w.len() > 0 && forall|k: int| 0 <= k < w.len() ==> !unicode_white_space(#[trigger] w[k]))
            ==> has_word(w, w),
        unicode_white_space(c) && has_word(s, w) ==> has_word(s + seq![c] + t, w),
        unicode_white_space(c) && has_word(s, w) ==> has_word(t + seq![c] + s, w),
{
    if has_word(s, w) {
        let (i, j) = choose|i: int, j: int| is_word(s, i, j) && s.subrange(i, j) == w;
        assert(occurs_at(s, w, i));
        assert forall|k: int| 0 <= k < w.len() implies !unicode_white_space(#[trigger] w[k]) by {
            assert(w[k] == s[i + k]);
        }
        if unicode_white_space(c) {
            let u = s + seq![c] + t;
            assert(u.subrange(i, j) =~= w);
            assert forall|k: int| i <= k < j implies !unicode_white_space(#[trigger] u[k]) by {
                assert(u[k] == s[k]);
            }
            if j < s.len() {
                assert(u[j] == s[j]);
            } else {
                assert(u[j] == c);
            }
            if i > 0 {
                assert(u[i - 1] == s[i - 1]);
            }
            assert(is_word(u, i, j));
            let v = t + seq![c] + s;
            let off = t.len() + 1;
            assert(v.subrange(i + off, j + off) =~= w);
            assert forall|k: int| i + off <= k < j + off implies !unicode_white_space(
                #[trigger] v[k],
            ) by {
                assert(v[k] == s[k - off]);
            }
            if i > 0 {
                assert(v[i + off - 1] == s[i - 1]);
            } else {
                assert(v[i + off - 1] == c);
            }
            if j < s.len() {
                assert(v[j + off] == s[j]);
            }
            assert(is_word(v, i + off, j + off));
        }
    }
    if w.len() > 0 && forall|k: int| 0 <= k < w.len() ==> !unicode_white_space(#[trigger] w[k]) {
        assert(w.subrange(0, w.len() as int) =~= w);
        assert(is_word(w, 0, w.len() as int));
    }
}

} // verus!
