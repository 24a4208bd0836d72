//! Character-level string utilities: conversion between strings and
//! character vectors, concatenation, and substring search.

use vstd::prelude::*;
use vstd::string::*;

verus! {

/// True when `needle` occurs as a contiguous run inside `hay` starting at `at`.
pub open spec fn matches_at(hay: Seq<char>, needle: Seq<char>, at: int) -> bool {
    0 <= at && at + needle.len() <= hay.len() && hay.subrange(at, at + needle.len())
        == needle
}

/// True when `needle` occurs somewhere inside `hay`.
pub open spec fn has_substring(hay: Seq<char>, needle: Seq<char>) -> bool {
    exists|at: int| matches_at(hay, needle, at)
}

/// Collects the characters of a string slice into a vector.
pub fn str_chars(s: &str) -> (v: Vec<char>)
    ensures
        v@ == s@,
{
    let n: usize = s.unicode_len();
    let mut v: Vec<char> = Vec::new();
    let mut i: usize = 0;
    while i < n
        invariant
            i <= n,
            n == s@.len(),
            v@ == s@.subrange(0, i as int),
        decreases n - i,
    {
        let c = s.get_char(i);
        v.push(c);
        i += 1;
        proof {
            assert(v@ =~= s@.subrange(0, i as int));
        }
    }
    proof {
        assert(v@ =~= s@);
    }
    v
}

/// Relies on `String::push`: appends the character at the end of the string.
#[verifier::external_body]
pub(crate) fn push_char(s: &mut String, c: char)
    ensures
        final(s)@ == old(s)@.push(c),
{
    s.push(c);
}

/// Builds a string out of a vector of characters.
pub fn chars_to_string(v: &Vec<char>) -> (s: String)
    ensures
        s@ == v@,
{
    let mut s = String::new();
    let mut i: usize = 0;
    while i < v.len()
        invariant
            i <= v.len(),
            s@ == v@.subrange(0, i as int),
        decreases v.len() - i,
    {
        push_char(&mut s, v[i]);
        i += 1;
        proof {
            assert(s@ =~= v@.subrange(0, i as int));
        }
    }
    proof {
        assert(s@ =~= v@);
    }
    s
}

/// Concatenates two string slices.
pub fn concat2(a: &str, b: &str) -> (r: String)
    ensures
        r@ == a@ + b@,
{
    let mut s = a.to_owned();
    s.append(b);
    s
}

/// Concatenates three string slices.
pub fn concat3(a: &str, b: &str, c: &str) -> (r: String)
    ensures
        r@ == a@ + b@ + c@,
{
    let mut s = a.to_owned();
    s.append(b);
    s.append(c);
    s
}

/// Decides whether `needle` occurs as a contiguous substring of `hay`.
pub fn contains_str(hay: &str, needle: &str) -> (b: bool)
    ensures
        b == has_substring(hay@, needle@),
{
    let h = str_chars(hay);
    let n = str_chars(needle);
    if n.len() > h.len() {
        proof {
            assert(forall|at: int| !matches_at(hay@, needle@, at));
        }
        return false;
    }
    let last: usize = h.len() - n.len();
    let mut at: usize = 0;
    loop
        invariant
            n.len() <= h.len(),
            last == h.len() - n.len(),
            at <= last + 1,
            h@ == hay@,
            n@ == needle@,
            forall|k: int| 0 <= k < at ==> !matches_at(hay@, needle@, k),
        decreases last + 1 - at,
    {
        if at > last {
            proof {
                assert(forall|k: int| matches_at(hay@, needle@, k) ==> 0 <= k <= last);
            }
            return false;
        }
        let mut j: usize = 0;
        let mut hit = true;
        while j < n.len()
            invariant
                at <= last,
                last == h.len() - n.len(),
                j <= n.len(),
                h@ == hay@,
                n@ == needle@,
                hit ==> forall|m: int| 0 <= m < j ==> hay@[at + m] == needle@[m],
                !hit ==> exists|m: int| 0 <= m < needle@.len() && hay@[at + m] != needle@[m],
            decreases n.len() - j,
        {
            if h[at + j] != n[j] {
                proof {
                    assert(hay@[at + j] != needle@[j as int]);
                }
                hit = false;
                j = n.len();
            } else {
                j += 1;
            }
        }
        if hit {
            proof {
                assert(hay@.subrange(at as int, at + needle@.len()) =~= needle@);
                assert(matches_at(hay@, needle@, at as int));
            }
            return true;
        }
        proof {
            assert(!matches_at(hay@, needle@, at as int)) by {
                if matches_at(hay@, needle@, at as int) {
                    let m = choose|m: int|
                        0 <= m < needle@.len() && hay@[at + m] != needle@[m];
                    assert(hay@.subrange(at as int, at + needle@.len())[m] == needle@[m]);
                }
            }
        }
        at += 1;
    }
}

} // verus!
