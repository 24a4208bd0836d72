//! Derivation of the safe application name from a free-text display name:
//! keep only letters, digits, spaces and hyphens, then trim surrounding
//! spaces.  Generation is refused when nothing is left.

use vstd::prelude::*;
use crate::text::{str_chars, chars_to_string};

verus! {

/// Names what `char::is_alphanumeric` returns for a character.
pub uninterp spec fn is_alphanum(c: char) -> bool;

/// Relies on `char::is_alphanumeric`: the result depends on the character alone.
#[verifier::external_body]
fn char_is_alphanumeric(c: char) -> (r: bool)
    ensures
        r == is_alphanum(c),
{
    c.is_alphanumeric()
}

/// A character that survives sanitization: a letter or digit, a space, or a
/// hyphen.
pub open spec fn keeps_char(c: char) -> bool {
    is_alphanum(c) || c == ' ' || c == '-'
}

/// The subsequence of characters that survive sanitization, in order.
pub open spec fn kept_chars(s: Seq<char>) -> Seq<char>
    decreases s.len(),
{
    if s.len() == 0 {
        Seq::empty()
    } else {
        let rest = kept_chars(s.drop_last());
        if keeps_char(s.last()) {
            rest.push(s.last())
        } else {
            rest
        }
    }
}

/// Drops every leading space.
pub open spec fn trim_start_spaces(s: Seq<char>) -> Seq<char>
    decreases s.len(),
{
    if s.len() > 0 && s[0] == ' ' {
        trim_start_spaces(s.drop_first())
    } else {
        s
    }
}

/// Drops every trailing space.
pub open spec fn trim_end_spaces(s: Seq<char>) -> Seq<char>
    decreases s.len(),
{
    if s.len() > 0 && s.last() == ' ' {
        trim_end_spaces(s.drop_last())
    } else {
        s
    }
}

/// Drops the leading and trailing spaces.
pub open spec fn trim_spaces(s: Seq<char>) -> Seq<char> {
    trim_end_spaces(trim_start_spaces(s))
}

/// The safe name derived from a display name: the kept characters with
/// surrounding spaces trimmed.
pub open spec fn sanitized(s: Seq<char>) -> Seq<char> {
    trim_spaces(kept_chars(s))
}

/// Derives the safe application name from a display name.
pub fn sanitize_name(name: &str) -> (r: String)
    ensures
        r@ == sanitized(name@),
{
    let cs = str_chars(name);
    let mut kept: Vec<char> = Vec::new();
    let mut i: usize = 0;
    while i < cs.len()
        invariant
            i <= cs.len(),
            cs@ == name@,
            kept@ == kept_chars(name@.subrange(0, i as int)),
        decreases cs.len() - i,
    {
        let c = cs[i];
        if char_is_alphanumeric(c) || c == ' ' || c == '-' {
            kept.push(c);
        }
        i += 1;
        proof {
            assert(name@.subrange(0, i as int).drop_last() =~= name@.subrange(
                0,
                i as int - 1,
            ));
        }
    }
    proof {
        assert(name@.subrange(0, name@.len() as int) =~= name@);
    }
    let mut start: usize = 0;
    while start < kept.len() && kept[start] == ' '
        invariant
            start <= kept.len(),
            forall|k: int| 0 <= k < start ==> kept@[k] == ' ',
        decreases kept.len() - start,
    {
        start += 1;
    }
    let mut end: usize = kept.len();
    while end > start && kept[end - 1] == ' '
        invariant
            start <= end <= kept.len(),
            forall|k: int| end <= k < kept@.len() ==> kept@[k] == ' ',
            start == kept@.len() || kept@[start as int] != ' ',
        decreases end,
    {
        end -= 1;
    }
    let mut out: Vec<char> = Vec::new();
    let mut i: usize = start;
    while i < end
        invariant
            start <= i <= end <= kept.len(),
            out@ == kept@.subrange(start as int, i as int),
        decreases end - i,
    {
        out.push(kept[i]);
        i += 1;
        proof {
            assert(out@ =~= kept@.subrange(start as int, i as int));
        }
    }
    proof {
        lemma_trim_bounds(kept@, start as int, end as int);
    }
    chars_to_string(&out)
}

/// Characterizes `trim_spaces` as the subrange between the first and one past
/// the last non-space character.
proof fn lemma_trim_bounds(s: Seq<char>, start: int, end: int)
    requires
        0 <= start <= end <= s.len(),
        forall|k: int| 0 <= k < start ==> s[k] == ' ',
        forall|k: int| end <= k < s.len() ==> s[k] == ' ',
        start == s.len() || s[start] != ' ',
        end == start || s[end - 1] != ' ',
    ensures
        trim_spaces(s) == s.subrange(start, end),
{
    lemma_trim_start_upto(s, start);
    let t = s.subrange(start, s.len() as int);
    lemma_trim_end_upto(t, end - start);
    assert(t.subrange(0, end - start) =~= s.subrange(start, end));
}

/// `trim_start_spaces` drops exactly the leading spaces.
proof fn lemma_trim_start_upto(s: Seq<char>, start: int)
    requires
        0 <= start <= s.len(),
        forall|k: int| 0 <= k < start ==> s[k] == ' ',
        start == s.len() || s[start] != ' ',
    ensures
        trim_start_spaces(s) == s.subrange(start, s.len() as int),
    decreases start,
{
    if start == 0 {
        assert(s.subrange(0, s.len() as int) =~= s);
    } else {
        let rest = s.drop_first();
        lemma_trim_start_upto(rest, start - 1);
        assert(rest.subrange(start - 1, rest.len() as int) =~= s.subrange(
            start,
            s.len() as int,
        ));
    }
}

/// `trim_end_spaces` drops exactly the trailing spaces.
proof fn lemma_trim_end_upto(s: Seq<char>, end: int)
    requires
        0 <= end <= s.len(),
        forall|k: int| end <= k < s.len() ==> s[k] == ' ',
        end == 0 || s[end - 1] != ' ',
    ensures
        trim_end_spaces(s) == s.subrange(0, end),
    decreases s.len(),
{
    if end == s.len() {
        if s.len() == 0 || s.last() != ' ' {
            assert(s.subrange(0, end) =~= s);
        } else {
            assert(s.last() == s[end - 1]);
        }
    } else {
        let rest = s.drop_last();
        lemma_trim_end_upto(rest, end);
        assert(rest.subrange(0, end) =~= s.subrange(0, end));
    }
}

/// Every character of a sanitized name is a letter, a digit, a space or a
/// hyphen.
pub proof fn lemma_sanitized_chars_kept(s: Seq<char>)
    ensures
        forall|i: int|
            0 <= i < sanitized(s).len() ==> keeps_char(#[trigger] sanitized(s)[i]),
{
    lemma_kept_chars_all_kept(s);
    let ks = kept_chars(s);
    lemma_trim_start_is_suffix(ks);
    let t = trim_start_spaces(ks);
    lemma_trim_end_is_prefix(t);
    let u = trim_end_spaces(t);
    assert forall|i: int| 0 <= i < u.len() implies keeps_char(u[i]) by {
        assert(u[i] == t.subrange(0, u.len() as int)[i]);
        assert(t[i] == ks.subrange(ks.len() - t.len(), ks.len() as int)[i]);
    }
}

/// Every character that `kept_chars` returns satisfies `keeps_char`.
proof fn lemma_kept_chars_all_kept(s: Seq<char>)
    ensures
        forall|i: int|
            0 <= i < kept_chars(s).len() ==> keeps_char(#[trigger] kept_chars(s)[i]),
    decreases s.len(),
{
    if s.len() > 0 {
        lemma_kept_chars_all_kept(s.drop_last());
        let rest = kept_chars(s.drop_last());
        assert forall|i: int|
            0 <= i < kept_chars(s).len() implies keeps_char(kept_chars(s)[i]) by {
            if keeps_char(s.last()) {
                assert(kept_chars(s) == rest.push(s.last()));
                if i < rest.len() {
                    assert(kept_chars(s)[i] == rest[i]);
                }
            } else {
                assert(kept_chars(s) == rest);
            }
        }
    }
}

/// `trim_start_spaces` returns a suffix of its argument.
proof fn lemma_trim_start_is_suffix(s: Seq<char>)
    ensures
        trim_start_spaces(s).len() <= s.len(),
        trim_start_spaces(s) == s.subrange(
            s.len() - trim_start_spaces(s).len(),
            s.len() as int,
        ),
    decreases s.len(),
{
    let t = trim_start_spaces(s);
    if s.len() > 0 && s[0] == ' ' {
        lemma_trim_start_is_suffix(s.drop_first());
        assert(s.drop_first().subrange(s.drop_first().len() - t.len(), s.drop_first().len() as int)
            =~= s.subrange(s.len() - t.len(), s.len() as int));
    } else {
        assert(s.subrange(0, s.len() as int) =~= s);
    }
}

/// `trim_end_spaces` returns a prefix of its argument.
proof fn lemma_trim_end_is_prefix(s: Seq<char>)
    ensures
        trim_end_spaces(s).len() <= s.len(),
        trim_end_spaces(s) == s.subrange(0, trim_end_spaces(s).len() as int),
    decreases s.len(),
{
    let t = trim_end_spaces(s);
    if s.len() > 0 && s.last() == ' ' {
        lemma_trim_end_is_prefix(s.drop_last());
        assert(s.drop_last().subrange(0, t.len() as int) =~= s.subrange(0, t.len() as int));
    } else {
        assert(s.subrange(0, s.len() as int) =~= s);
    }
}

/// Sanitization is idempotent: sanitizing a safe name changes nothing.
pub proof fn lemma_sanitize_idempotent(s: Seq<char>)
    ensures
        sanitized(sanitized(s)) == sanitized(s),
{
    let a = sanitized(s);
    lemma_sanitized_chars_kept(s);
    lemma_kept_of_all_kept(a);
    assert(kept_chars(a) == a);
    lemma_trim_of_trimmed(kept_chars(s));
}

/// Filtering a sequence whose characters are all kept changes nothing.
proof fn lemma_kept_of_all_kept(s: Seq<char>)
    requires
        forall|i: int| 0 <= i < s.len() ==> keeps_char(#[trigger] s[i]),
    ensures
        kept_chars(s) == s,
    decreases s.len(),
{
    if s.len() == 0 {
        assert(kept_chars(s) =~= s);
    } else {
        lemma_kept_of_all_kept(s.drop_last());
        assert(kept_chars(s) =~= s);
    }
}

/// Trimming an already-trimmed sequence changes nothing.
proof fn lemma_trim_of_trimmed(s: Seq<char>)
    ensures
        trim_spaces(trim_spaces(s)) == trim_spaces(s),
{
    let t = trim_start_spaces(s);
    let u = trim_end_spaces(t);
    lemma_trim_start_no_leading_space(s);
    lemma_trim_end_is_prefix(t);
    if u.len() > 0 {
        assert(u[0] == t.subrange(0, u.len() as int)[0]);
        assert(u[0] != ' ');
    }
    assert(trim_start_spaces(u) == u);
    lemma_trim_end_no_trailing_space(t);
    assert(trim_end_spaces(u) == u);
}

/// After `trim_start_spaces` the first character, if any, is not a space.
proof fn lemma_trim_start_no_leading_space(s: Seq<char>)
    ensures
        trim_start_spaces(s).len() > 0 ==> trim_start_spaces(s)[0] != ' ',
    decreases s.len(),
{
    if s.len() > 0 && s[0] == ' ' {
        lemma_trim_start_no_leading_space(s.drop_first());
    }
}

/// After `trim_end_spaces` the last character, if any, is not a space.
proof fn lemma_trim_end_no_trailing_space(s: Seq<char>)
    ensures
        trim_end_spaces(s).len() > 0 ==> trim_end_spaces(s).last() != ' ',
    decreases s.len(),
{
    if s.len() > 0 && s.last() == ' ' {
        lemma_trim_end_no_trailing_space(s.drop_last());
    }
}

} // verus!
