//! Verified text utilities: character extraction, substring search and
//! string equality, all specified over `Seq<char>` views.

use vstd::prelude::*;
use vstd::string::StrSliceExecFns;

verus! {

/// The pattern `p` occurs in `s` starting at position `i`.
pub open spec fn contains_at(s: Seq<char>, p: Seq<char>, i: int) -> bool {
    0 <= i && i + p.len() <= s.len() && s.subrange(i, i + p.len() as int) == p
}

/// The pattern `p` occurs somewhere in `s`.
pub open spec fn contains_sub(s: Seq<char>, p: Seq<char>) -> bool {
    exists|i: int| contains_at(s, p, i)
}

/// The characters of `s`, in order, as a vector.
pub fn chars_of(s: &str) -> (r: Vec<char>)
    ensures
        r@ == s@,
{
    let n: usize = s.unicode_len();
    let mut v: Vec<char> = Vec::new();
    let mut i: usize = 0;
    while i < n
        invariant
            n == s@.len(),
            i <= n,
            v@ == s@.subrange(0, i as int),
        decreases n - i,
    {
        let c = s.get_char(i);
        v.push(c);
        proof {
            assert(v@ =~= s@.subrange(0, i + 1 as int));
        }
        i = i + 1;
    }
    proof {
        assert(v@ =~= s@);
    }
    v
}

/// Whether `pat` occurs in `hay` exactly at position `i`.
pub fn match_at(hay: &Vec<char>, pat: &Vec<char>, i: usize) -> (r: bool)
    requires
        i + pat@.len() <= hay@.len(),
    ensures
        r == contains_at(hay@, pat@, i as int),
{
    let n = hay.len();
    let mut j: usize = 0;
    while j < pat.len()
        invariant
            n == hay@.len(),
            i + pat@.len() <= hay@.len(),
            j <= pat@.len(),
            forall|k: int| 0 <= k < j ==> hay@[i + k] == pat@[k],
        decreases pat@.len() - j,
    {
        if hay[i + j] != pat[j] {
            proof {
                let sub = hay@.subrange(i as int, i + pat@.len() as int);
                assert(sub[j as int] == hay@[i + j]);
                assert(sub != pat@);
            }
            return false;
        }
        j = j + 1;
    }
    proof {
        assert(hay@.subrange(i as int, i + pat@.len() as int) =~= pat@);
    }
    true
}

/// Whether `pat` occurs anywhere in `hay`.
pub fn vec_contains(hay: &Vec<char>, pat: &Vec<char>) -> (r: bool)
    ensures
        r == contains_sub(hay@, pat@),
{
    if pat.len() > hay.len() {
        proof {
            assert(forall|i: int| !contains_at(hay@, pat@, i));
        }
        return false;
    }
    if pat.len() == 0 {
        proof {
            assert(hay@.subrange(0, 0) =~= pat@);
            assert(contains_at(hay@, pat@, 0));
        }
        return true;
    }
    let hn = hay.len();
    let bound = hn - pat.len();
    let mut i: usize = 0;
    while i <= bound
        invariant
            hn == hay@.len(),
            1 <= pat@.len() <= hay@.len(),
            bound == hay@.len() - pat@.len(),
            i <= bound + 1,
            forall|k: int| 0 <= k < i ==> !contains_at(hay@, pat@, k),
        decreases bound + 1 - i,
    {
        if match_at(hay, pat, i) {
            return true;
        }
        i = i + 1;
    }
    proof {
        assert(forall|k: int| k > bound ==> !contains_at(hay@, pat@, k));
    }
    false
}

/// Whether the literal pattern `pat` occurs in `hay`.
pub fn contains_lit(hay: &Vec<char>, pat: &str) -> (r: bool)
    ensures
        r == contains_sub(hay@, pat@),
{
    let p = chars_of(pat);
    vec_contains(hay, &p)
}

/// Character-wise string equality, specified over the views.
pub fn str_eq(a: &str, b: &str) -> (r: bool)
    ensures
        r == (a@ == b@),
{
    let na: usize = a.unicode_len();
    let nb: usize = b.unicode_len();
    if na != nb {
        proof {
            assert(a@.len() != b@.len());
        }
        return false;
    }
    let mut i: usize = 0;
    while i < na
        invariant
            na == a@.len(),
            na == b@.len(),
            i <= na,
            forall|k: int| 0 <= k < i ==> a@[k] == b@[k],
        decreases na - i,
    {
        if a.get_char(i) != b.get_char(i) {
            return false;
        }
        i = i + 1;
    }
    proof {
        assert(a@ =~= b@);
    }
    true
}

/// An ASCII decimal digit.
pub open spec fn is_digit(c: char) -> bool {
    48 <= c as u32 && c as u32 <= 57
}

/// Whether `c` is an ASCII decimal digit.
pub fn digit_check(c: char) -> (r: bool)
    ensures
        r == is_digit(c),
{
    let u = c as u32;
    48 <= u && u <= 57
}

} // verus!
