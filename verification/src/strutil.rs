//! Verified string primitives used by the argument rewriter.
//!
//! All arguments are treated as opaque character sequences; the rewriter only
//! ever asks prefix, suffix, equality, substring and splitting questions about
//! them, and those questions are answered here with exact contracts over the
//! `Seq<char>` views.

use vstd::prelude::*;

verus! {

use vstd::string::StrSliceExecFns;

/// The first `n` characters of `s1` and `s2` both exist and agree.
pub open spec fn first_chars_eq(s1: Seq<char>, s2: Seq<char>, n: nat) -> bool {
    &&& n <= s1.len()
    &&& n <= s2.len()
    &&& s1.subrange(0, n as int) == s2.subrange(0, n as int)
}

/// `sub` occurs somewhere in `s` as a contiguous run of characters.
pub open spec fn contains_substr(s: Seq<char>, sub: Seq<char>) -> bool {
    exists|i: int|
        0 <= i && i + sub.len() <= s.len() && #[trigger] s.subrange(i, i + sub.len() as int) == sub
}

/// Compares the leading `len` characters of two strings; false when either
/// string is shorter than `len`.
pub fn cmp_first_chars(str1: &str, str2: &str, len: usize) -> (r: bool)
    ensures
        r == first_chars_eq(str1@, str2@, len as nat),
{
    let n1 = str1.unicode_len();
    let n2 = str2.unicode_len();
    if len > n1 || len > n2 {
        return false;
    }
    let mut i: usize = 0;
    while i < len
        invariant
            i <= len,
            len <= str1@.len(),
            len <= str2@.len(),
            forall|j: int| 0 <= j < i ==> str1@[j] == str2@[j],
        decreases len - i,
    {
        if str1.get_char(i) != str2.get_char(i) {
            proof {
                assert(str1@.subrange(0, len as int)[i as int] == str1@[i as int]);
                assert(str2@.subrange(0, len as int)[i as int] == str2@[i as int]);
            }
            return false;
        }
        i += 1;
    }
    proof {
        assert(str1@.subrange(0, len as int) =~= str2@.subrange(0, len as int));
    }
    true
}

/// Character-for-character equality of two string slices.
pub fn str_eq(a: &str, b: &str) -> (r: bool)
    ensures
        r == (a@ == b@),
{
    let n1 = a.unicode_len();
    let n2 = b.unicode_len();
    if n1 != n2 {
        return false;
    }
    let r = cmp_first_chars(a, b, n1);
    proof {
        assert(a@.subrange(0, n1 as int) =~= a@);
        assert(b@.subrange(0, n1 as int) =~= b@);
    }
    r
}

/// Whether `str1` equals any string of the group.
pub fn cmp_with_group_strings(str1: &str, strings: &Vec<String>) -> (r: bool)
    ensures
        r == strings.deep_view().contains(str1@),
{
    let mut i: usize = 0;
    while i < strings.len()
        invariant
            i <= strings.len(),
            forall|j: int| 0 <= j < i ==> strings.deep_view()[j] != str1@,
        decreases strings.len() - i,
    {
        if str_eq(str1, strings[i].as_str()) {
            proof {
                assert(strings.deep_view()[i as int] == str1@);
            }
            return true;
        }
        i += 1;
    }
    proof {
        if strings.deep_view().contains(str1@) {
            let j = choose|j: int|
                0 <= j < strings.deep_view().len() && strings.deep_view()[j] == str1@;
            assert(strings.deep_view()[j] != str1@);
        }
    }
    false
}

/// Whether `p` is a prefix of `s`, character by character.
pub fn has_prefix(s: &str, p: &str) -> (r: bool)
    ensures
        r == p@.is_prefix_of(s@),
{
    let n = p.unicode_len();
    let r = cmp_first_chars(s, p, n);
    proof {
        assert(p@.subrange(0, p@.len() as int) =~= p@);
    }
    r
}

/// Whether `p` is a suffix of `s`, character by character.
pub fn has_suffix(s: &str, p: &str) -> (r: bool)
    ensures
        r == p@.is_suffix_of(s@),
{
    let n = s.unicode_len();
    let m = p.unicode_len();
    if m > n {
        return false;
    }
    let off: usize = n - m;
    let mut j: usize = 0;
    while j < m
        invariant
            j <= m,
            m <= n,
            off == n - m,
            n == s@.len(),
            m == p@.len(),
            forall|l: int| 0 <= l < j ==> s@[off + l] == p@[l],
        decreases m - j,
    {
        if s.get_char(off + j) != p.get_char(j) {
            proof {
                assert(s@.subrange(off as int, n as int)[j as int] == s@[off + j as int]);
            }
            return false;
        }
        j += 1;
    }
    proof {
        assert(s@.subrange(off as int, n as int) =~= p@);
    }
    true
}

/// Whether the characters `sub` occur contiguously at position `i` of `s`.
fn match_at(s: &str, sub: &str, i: usize) -> (r: bool)
    requires
        i + sub@.len() <= s@.len(),
    ensures
        r == (s@.subrange(i as int, i as int + sub@.len() as int) == sub@),
{
    let n = s.unicode_len();
    let m = sub.unicode_len();
    let mut j: usize = 0;
    while j < m
        invariant
            j <= m,
            m == sub@.len(),
            n == s@.len(),
            i + m <= n,
            forall|l: int| 0 <= l < j ==> s@[i + l] == sub@[l],
        decreases m - j,
    {
        if s.get_char(i + j) != sub.get_char(j) {
            proof {
                assert(s@.subrange(i as int, i as int + m as int)[j as int] == s@[i + j as int]);
            }
            return false;
        }
        j += 1;
    }
    proof {
        assert(s@.subrange(i as int, i as int + m as int) =~= sub@);
    }
    true
}

/// Substring search: whether `sub` occurs anywhere in `s`.
pub fn str_contains(s: &str, sub: &str) -> (r: bool)
    ensures
        r == contains_substr(s@, sub@),
{
    let n = s.unicode_len();
    let m = sub.unicode_len();
    if m > n {
        return false;
    }
    if m == 0 {
        proof {
            assert(s@.subrange(0, 0 + sub@.len() as int) =~= sub@);
        }
        return true;
    }
    let mut i: usize = 0;
    while i <= n - m
        invariant
            1 <= m <= n,
            n == s@.len(),
            m == sub@.len(),
            i <= n - m + 1,
            forall|k: int| 0 <= k < i ==> #[trigger] s@.subrange(k, k + m as int) != sub@,
        decreases n - m - i + 1,
    {
        if match_at(s, sub, i) {
            return true;
        }
        i += 1;
    }
    proof {
        if contains_substr(s@, sub@) {
            let k = choose|k: int|
                0 <= k && k + sub@.len() <= s@.len() && #[trigger] s@.subrange(
                    k,
                    k + sub@.len() as int,
                ) == sub@;
            assert(s@.subrange(k, k + m as int) != sub@);
        }
    }
    false
}

/// A character with the Unicode white-space property, as `str::split_whitespace`
/// understands it.
pub open spec fn is_space_char(c: char) -> bool {
    ||| c == ' '
    ||| c == '\t'
    ||| c == '\n'
    ||| c == '\r'
    ||| c == '\u{b}'
    ||| c == '\u{c}'
    ||| c == '\u{85}'
    ||| c == '\u{a0}'
    ||| c == '\u{1680}'
    ||| c == '\u{2000}'
    ||| c == '\u{2001}'
    ||| c == '\u{2002}'
    ||| c == '\u{2003}'
    ||| c == '\u{2004}'
    ||| c == '\u{2005}'
    ||| c == '\u{2006}'
    ||| c == '\u{2007}'
    ||| c == '\u{2008}'
    ||| c == '\u{2009}'
    ||| c == '\u{200a}'
    ||| c == '\u{2028}'
    ||| c == '\u{2029}'
    ||| c == '\u{202f}'
    ||| c == '\u{205f}'
    ||| c == '\u{3000}'
}

/// Decision procedure for [`is_space_char`].
pub fn is_space(c: char) -> (r: bool)
    ensures
        r == is_space_char(c),
{
    c == ' ' || c == '\t' || c == '\n' || c == '\r' || c == '\u{b}' || c == '\u{c}' || c == '\u{85}'
        || c == '\u{a0}' || c == '\u{1680}' || c == '\u{2000}' || c == '\u{2001}' || c == '\u{2002}'
        || c == '\u{2003}' || c == '\u{2004}' || c == '\u{2005}' || c == '\u{2006}' || c
        == '\u{2007}' || c == '\u{2008}' || c == '\u{2009}' || c == '\u{200a}' || c == '\u{2028}'
        || c == '\u{2029}' || c == '\u{202f}' || c == '\u{205f}' || c == '\u{3000}'
}

/// The tokens already split off, plus the token still being read.
#[verifier::ext_equal]
pub ghost struct SplitAcc {
    pub done: Seq<Seq<char>>,
    pub cur: Seq<char>,
}

/// One character of white-space splitting: a space closes the current token
/// if it is non-empty; any other character extends it.
pub open spec fn ws_step(acc: SplitAcc, c: char) -> SplitAcc {
    if is_space_char(c) {
        if acc.cur.len() > 0 {
            SplitAcc { done: acc.done.push(acc.cur), cur: Seq::empty() }
        } else {
            acc
        }
    } else {
        SplitAcc { done: acc.done, cur: acc.cur.push(c) }
    }
}

/// White-space splitting folded over the whole string, last character last.
pub open spec fn ws_fold(s: Seq<char>) -> SplitAcc
    decreases s.len(),
{
    if s.len() == 0 {
        SplitAcc { done: Seq::empty(), cur: Seq::empty() }
    } else {
        ws_step(ws_fold(s.drop_last()), s.last())
    }
}

/// The maximal non-empty runs of non-space characters of `s`, in order:
/// what `str::split_whitespace` yields.
pub open spec fn split_whitespace_view(s: Seq<char>) -> Seq<Seq<char>> {
    let acc = ws_fold(s);
    if acc.cur.len() > 0 {
        acc.done.push(acc.cur)
    } else {
        acc.done
    }
}

/// One character of comma splitting: a comma always closes the current token,
/// empty or not; any other character extends it.
pub open spec fn comma_step(acc: SplitAcc, c: char) -> SplitAcc {
    if c == ',' {
        SplitAcc { done: acc.done.push(acc.cur), cur: Seq::empty() }
    } else {
        SplitAcc { done: acc.done, cur: acc.cur.push(c) }
    }
}

/// Comma splitting folded over the whole string, last character last.
pub open spec fn comma_fold(s: Seq<char>) -> SplitAcc
    decreases s.len(),
{
    if s.len() == 0 {
        SplitAcc { done: Seq::empty(), cur: Seq::empty() }
    } else {
        comma_step(comma_fold(s.drop_last()), s.last())
    }
}

/// The comma-separated fields of `s`, in order, empty fields kept:
/// what `str::split` on `','` yields.
pub open spec fn split_commas_view(s: Seq<char>) -> Seq<Seq<char>> {
    comma_fold(s).done.push(comma_fold(s).cur)
}

/// Splits `s` into its maximal runs of non-white-space characters.
pub fn split_whitespace_tokens(s: &str) -> (r: Vec<String>)
    ensures
        r.deep_view() == split_whitespace_view(s@),
{
    let n = s.unicode_len();
    let mut done: Vec<String> = Vec::new();
    let mut start: usize = 0;
    let mut in_token = false;
    let mut i: usize = 0;
    while i < n
        invariant
            i <= n,
            n == s@.len(),
            done.deep_view() == ws_fold(s@.subrange(0, i as int)).done,
            in_token ==> start < i && ws_fold(s@.subrange(0, i as int)).cur == s@.subrange(
                start as int,
                i as int,
            ) && s@.subrange(start as int, i as int).len() > 0,
            !in_token ==> ws_fold(s@.subrange(0, i as int)).cur == Seq::<char>::empty(),
        decreases n - i,
    {
        let ghost pre = s@.subrange(0, i as int);
        let ghost post = s@.subrange(0, i as int + 1);
        proof {
            assert(post.drop_last() =~= pre);
            assert(post.last() == s@[i as int]);
        }
        let c = s.get_char(i);
        if is_space(c) {
            if in_token {
                let tok = s.substring_char(start, i);
                done.push(tok.to_owned());
                proof {
                    assert(done.deep_view() =~= ws_fold(post).done);
                }
                in_token = false;
            }
        } else {
            if !in_token {
                start = i;
                in_token = true;
            }
            proof {
                assert(s@.subrange(start as int, i as int + 1) =~= s@.subrange(
                    start as int,
                    i as int,
                ).push(s@[i as int]));
            }
        }
        i += 1;
    }
    proof {
        assert(s@.subrange(0, n as int) =~= s@);
    }
    if in_token {
        let tok = s.substring_char(start, n);
        done.push(tok.to_owned());
        proof {
            assert(done.deep_view() =~= split_whitespace_view(s@));
        }
    }
    done
}

/// Splits `s` at every comma, keeping empty fields.
pub fn split_on_commas(s: &str) -> (r: Vec<String>)
    ensures
        r.deep_view() == split_commas_view(s@),
{
    let n = s.unicode_len();
    let mut done: Vec<String> = Vec::new();
    let mut start: usize = 0;
    let mut i: usize = 0;
    while i < n
        invariant
            start <= i <= n,
            n == s@.len(),
            done.deep_view() == comma_fold(s@.subrange(0, i as int)).done,
            comma_fold(s@.subrange(0, i as int)).cur == s@.subrange(start as int, i as int),
        decreases n - i,
    {
        let ghost pre = s@.subrange(0, i as int);
        let ghost post = s@.subrange(0, i as int + 1);
        proof {
            assert(post.drop_last() =~= pre);
            assert(post.last() == s@[i as int]);
        }
        let c = s.get_char(i);
        if c == ',' {
            let tok = s.substring_char(start, i);
            done.push(tok.to_owned());
            proof {
                assert(done.deep_view() =~= comma_fold(post).done);
            }
            start = i + 1;
            proof {
                assert(s@.subrange(start as int, i as int + 1) =~= Seq::<char>::empty());
            }
        } else {
            proof {
                assert(s@.subrange(start as int, i as int + 1) =~= s@.subrange(
                    start as int,
                    i as int,
                ).push(s@[i as int]));
            }
        }
        i += 1;
    }
    proof {
        assert(s@.subrange(0, n as int) =~= s@);
    }
    let tok = s.substring_char(start, n);
    done.push(tok.to_owned());
    proof {
        assert(done.deep_view() =~= split_commas_view(s@));
    }
    done
}

} // verus!
