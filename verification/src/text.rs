//! Verified text utilities shared by the supervisor and the operation
//! bridge: decimal rendering of integers and substring search, used for
//! building event messages and for recognizing the liveness marker in a
//! health-probe response.

use vstd::prelude::*;
use vstd::string::StrSliceExecFns;
use vstd::string::StringExecFns;

verus! {

/// The decimal digit character for `d` (meaningful for `d <= 9`).
pub open spec fn dec_digit(d: nat) -> char {
    if d == 0 {
        '0'
    } else if d == 1 {
        '1'
    } else if d == 2 {
        '2'
    } else if d == 3 {
        '3'
    } else if d == 4 {
        '4'
    } else if d == 5 {
        '5'
    } else if d == 6 {
        '6'
    } else if d == 7 {
        '7'
    } else if d == 8 {
        '8'
    } else {
        '9'
    }
}

/// The decimal representation of `n`, most significant digit first.
pub open spec fn dec_chars(n: nat) -> Seq<char>
    decreases n,
{
    if n < 10 {
        seq![dec_digit(n)]
    } else {
        dec_chars(n / 10).push(dec_digit(n % 10))
    }
}

/// The digits of `ds` read back to front, as characters.
spec fn rev_digit_chars(ds: Seq<u8>) -> Seq<char> {
    Seq::new(ds.len(), |i: int| dec_digit(ds[ds.len() - 1 - i] as nat))
}

/// A one-character string slice holding the decimal digit `d`.
pub(crate) fn digit_literal(d: u8) -> (r: &'static str)
    requires
        d < 10,
    ensures
        r@ =~= seq![dec_digit(d as nat)],
{
    proof {
        reveal_strlit("0");
        reveal_strlit("1");
        reveal_strlit("2");
        reveal_strlit("3");
        reveal_strlit("4");
        reveal_strlit("5");
        reveal_strlit("6");
        reveal_strlit("7");
        reveal_strlit("8");
        reveal_strlit("9");
    }
    match d {
        0 => "0",
        1 => "1",
        2 => "2",
        3 => "3",
        4 => "4",
        5 => "5",
        6 => "6",
        7 => "7",
        8 => "8",
        _ => "9",
    }
}

/// Renders `n` in decimal, without padding or sign.
pub fn u64_to_string(n: u64) -> (r: String)
    ensures
        r@ == dec_chars(n as nat),
{
    let mut digits: Vec<u8> = Vec::new();
    let mut m: u64 = n;
    digits.push((m % 10) as u8);
    m = m / 10;
    while m > 0
        invariant
            digits@.len() >= 1,
            forall|i: int| 0 <= i < digits@.len() ==> digits@[i] < 10,
            dec_chars(n as nat) =~= if m > 0 {
                dec_chars(m as nat) + rev_digit_chars(digits@)
            } else {
                rev_digit_chars(digits@)
            },
        decreases m,
    {
        let d = (m % 10) as u8;
        proof {
            let ds = digits@;
            assert(rev_digit_chars(ds.push(d)) =~= seq![dec_digit(d as nat)] + rev_digit_chars(
                ds,
            ));
        }
        digits.push(d);
        m = m / 10;
    }
    let mut r = String::new();
    let k = digits.len();
    let mut i: usize = 0;
    while i < k
        invariant
            k == digits@.len(),
            i <= k,
            forall|j: int| 0 <= j < digits@.len() ==> digits@[j] < 10,
            r@ =~= rev_digit_chars(digits@).take(i as int),
        decreases k - i,
    {
        let d = digits[k - 1 - i];
        let piece = digit_literal(d);
        proof {
            assert(rev_digit_chars(digits@).take(i + 1) =~= rev_digit_chars(digits@).take(
                i as int,
            ).push(dec_digit(d as nat)));
        }
        r.append(piece);
        i = i + 1;
    }
    proof {
        assert(rev_digit_chars(digits@).take(k as int) =~= rev_digit_chars(digits@));
    }
    r
}

/// `needle` occurs in `hay` starting at position `i`.
pub open spec fn chars_match_at(hay: Seq<char>, needle: Seq<char>, i: int) -> bool {
    &&& 0 <= i
    &&& i + needle.len() <= hay.len()
    &&& hay.subrange(i, i + needle.len()) == needle
}

/// `needle` occurs somewhere in `hay`.
pub open spec fn chars_contain(hay: Seq<char>, needle: Seq<char>) -> bool {
    exists|i: int| chars_match_at(hay, needle, i)
}

/// Substring search over characters.
pub fn str_contains(hay: &str, needle: &str) -> (r: bool)
    ensures
        r == chars_contain(hay@, needle@),
{
    let h = hay.unicode_len();
    let n = needle.unicode_len();
    if n > h {
        proof {
            assert(forall|i: int| !chars_match_at(hay@, needle@, i));
        }
        return false;
    }
    let mut i: usize = 0;
    while i <= h - n
        invariant
            n <= h,
            h == hay@.len(),
            n == needle@.len(),
            i <= h - n + 1,
            forall|p: int| 0 <= p < i ==> !chars_match_at(hay@, needle@, p),
        decreases h - n + 1 - i,
    {
        let mut j: usize = 0;
        let mut matched = true;
        while matched && j < n
            invariant
                n <= h,
                h == hay@.len(),
                n == needle@.len(),
                i + n <= h,
                j <= n,
                matched ==> forall|t: int| 0 <= t < j ==> hay@[i + t] == needle@[t],
                !matched ==> !chars_match_at(hay@, needle@, i as int),
            decreases n - j + (if matched { 1int } else { 0int }),
        {
            if hay.get_char(i + j) != needle.get_char(j) {
                proof {
                    let s = hay@.subrange(i as int, i + n);
                    assert(s[j as int] == hay@[i + j]);
                }
                matched = false;
            } else {
                j = j + 1;
            }
        }
        if matched {
            proof {
                assert(hay@.subrange(i as int, i + n) =~= needle@);
                assert(chars_match_at(hay@, needle@, i as int));
            }
            return true;
        }
        proof {
            if n == 0 {
                assert(hay@.subrange(i as int, i as int) =~= needle@);
            }
        }
        i = i + 1;
    }
    proof {
        assert(forall|p: int| 0 <= p < i ==> !chars_match_at(hay@, needle@, p));
        assert(forall|p: int| p >= i ==> !chars_match_at(hay@, needle@, p));
    }
    false
}

/// The Unicode White_Space characters, as `str::split_whitespace`
/// separates at them.
pub open spec fn spec_is_whitespace(c: char) -> bool {
    ||| c == ' '
    ||| ('\u{09}' <= c && c <= '\u{0D}')
    ||| c == '\u{85}'
    ||| c == '\u{A0}'
    ||| c == '\u{1680}'
    ||| ('\u{2000}' <= c && c <= '\u{200A}')
    ||| c == '\u{2028}'
    ||| c == '\u{2029}'
    ||| c == '\u{202F}'
    ||| c == '\u{205F}'
    ||| c == '\u{3000}'
}

/// Whether `c` is a whitespace character.
pub fn is_whitespace_char(c: char) -> (r: bool)
    ensures
        r == spec_is_whitespace(c),
{
    c == ' ' || ('\u{09}' <= c && c <= '\u{0D}') || c == '\u{85}' || c == '\u{A0}' || c
        == '\u{1680}' || ('\u{2000}' <= c && c <= '\u{200A}') || c == '\u{2028}' || c == '\u{2029}'
        || c == '\u{202F}' || c == '\u{205F}' || c == '\u{3000}'
}

/// Index of the first whitespace character of `s`, or its length when
/// there is none.
pub open spec fn first_whitespace(s: Seq<char>) -> int
    decreases s.len(),
{
    if s.len() == 0 {
        0
    } else if spec_is_whitespace(s[0]) {
        0
    } else {
        1 + first_whitespace(s.drop_first())
    }
}

/// The whitespace-separated words of `s`, in order, never empty.
pub open spec fn spec_split_whitespace(s: Seq<char>) -> Seq<Seq<char>>
    decreases s.len(),
{
    if s.len() == 0 {
        Seq::empty()
    } else if spec_is_whitespace(s[0]) {
        spec_split_whitespace(s.drop_first())
    } else {
        let k = first_whitespace(s);
        if 1 <= k <= s.len() {
            seq![s.take(k)] + spec_split_whitespace(s.skip(k))
        } else {
            seq![s]
        }
    }
}

/// A scan that passed `j` whitespace characters has skipped nothing of
/// the split.
proof fn lemma_split_ws_skip(s: Seq<char>, j: int)
    requires
        0 <= j <= s.len(),
        forall|t: int| 0 <= t < j ==> spec_is_whitespace(s[t]),
    ensures
        spec_split_whitespace(s) == spec_split_whitespace(s.skip(j)),
    decreases j,
{
    if j == 0 {
        assert(s.skip(0) =~= s);
    } else {
        assert(spec_is_whitespace(s[0]));
        assert(spec_split_whitespace(s) == spec_split_whitespace(s.drop_first()));
        assert(s.drop_first() =~= s.skip(1));
        assert(forall|t: int|
            0 <= t < j - 1 ==> s.skip(1)[t] == s[t + 1] && spec_is_whitespace(s[t + 1]));
        lemma_split_ws_skip(s.skip(1), j - 1);
        assert(s.skip(1).skip(j - 1) =~= s.skip(j));
    }
}

/// `first_whitespace` finds the boundary a scan found.
proof fn lemma_first_whitespace_at(s: Seq<char>, k: int)
    requires
        0 <= k <= s.len(),
        forall|t: int| 0 <= t < k ==> !spec_is_whitespace(s[t]),
        k < s.len() ==> spec_is_whitespace(s[k]),
    ensures
        first_whitespace(s) == k,
    decreases k,
{
    if k > 0 {
        assert(forall|t: int|
            0 <= t < k - 1 ==> s.drop_first()[t] == s[t + 1] && !spec_is_whitespace(s[t + 1]));
        lemma_first_whitespace_at(s.drop_first(), k - 1);
    }
}

/// Splits text at runs of whitespace; no empty words result.
pub fn split_whitespace(s: &str) -> (r: Vec<String>)
    ensures
        r@.len() == spec_split_whitespace(s@).len(),
        forall|i: int| 0 <= i < r@.len() ==> r@[i]@ == #[trigger] spec_split_whitespace(s@)[i],
{
    let mut words: Vec<String> = Vec::new();
    let mut rest: &str = s;
    loop
        invariant_except_break
            spec_split_whitespace(s@) =~= words@.map_values(|x: String| x@)
                + spec_split_whitespace(rest@),
        ensures
            spec_split_whitespace(s@) =~= words@.map_values(|x: String| x@),
        decreases rest@.len(),
    {
        let n = rest.unicode_len();
        let mut j: usize = 0;
        while j < n && is_whitespace_char(rest.get_char(j))
            invariant
                n == rest@.len(),
                j <= n,
                forall|t: int| 0 <= t < j ==> spec_is_whitespace(rest@[t]),
            decreases n - j,
        {
            j = j + 1;
        }
        proof {
            lemma_split_ws_skip(rest@, j as int);
        }
        if j == n {
            proof {
                assert(rest@.skip(n as int) =~= Seq::<char>::empty());
            }
            break;
        }
        let word_start = rest.substring_char(j, n);
        proof {
            assert(word_start@ =~= rest@.skip(j as int));
        }
        let mut k: usize = 0;
        let m = n - j;
        while k < m && !is_whitespace_char(word_start.get_char(k))
            invariant
                m == word_start@.len(),
                k <= m,
                forall|t: int| 0 <= t < k ==> !spec_is_whitespace(word_start@[t]),
            decreases m - k,
        {
            k = k + 1;
        }
        proof {
            lemma_first_whitespace_at(word_start@, k as int);
        }
        let word = word_start.substring_char(0, k).to_owned();
        let tail = word_start.substring_char(k, m);
        proof {
            assert(word@ =~= word_start@.take(k as int));
            assert(tail@ =~= word_start@.skip(k as int));
            assert((words@.push(word)).map_values(|x: String| x@) =~= words@.map_values(
                |x: String| x@,
            ).push(word@));
        }
        words.push(word);
        rest = tail;
    }
    proof {
        let wv = words@.map_values(|x: String| x@);
        assert(forall|i: int| 0 <= i < words@.len() ==> words@[i]@ == #[trigger] wv[i]);
    }
    words
}

} // verus!
