//! Derived bundle identity values: the on-disk application name and the
//! reverse-domain bundle identifier.

use vstd::prelude::*;
use vstd::string::*;
use crate::text::{str_chars, chars_to_string, concat2};

verus! {

/// Names what `str::to_lowercase` returns: the result depends on the
/// characters alone.
pub uninterp spec fn lower_of(s: Seq<char>) -> Seq<char>;

/// Relies on `str::to_lowercase`: lowercases by the Unicode tables, with a
/// result that is a function of the characters alone.
#[verifier::external_body]
fn lowercase(s: &str) -> (r: String)
    ensures
        r@ == lower_of(s@),
        s@.len() == 0 ==> r@.len() == 0,
{
    s.to_lowercase()
}

/// Every space replaced by a hyphen, character for character.
pub open spec fn hyphenated(s: Seq<char>) -> Seq<char> {
    Seq::new(s.len(), |i: int| if s[i] == ' ' { '-' } else { s[i] })
}

/// Replaces each space with a hyphen.
pub fn hyphenate(s: &str) -> (r: String)
    ensures
        r@ == hyphenated(s@),
{
    let cs = str_chars(s);
    let mut out: Vec<char> = Vec::new();
    let mut i: usize = 0;
    while i < cs.len()
        invariant
            i <= cs.len(),
            cs@ == s@,
            out@.len() == i,
            forall|k: int| 0 <= k < i ==> out@[k] == hyphenated(s@)[k],
        decreases cs.len() - i,
    {
        let c = cs[i];
        if c == ' ' {
            out.push('-');
        } else {
            out.push(c);
        }
        i += 1;
    }
    proof {
        assert(out@ =~= hyphenated(s@));
    }
    chars_to_string(&out)
}

/// The reverse-domain identifier derived from a safe name.
pub open spec fn bundle_id_of(safe_name: Seq<char>) -> Seq<char> {
    "io.sublimesolutions.webbox."@ + hyphenated(lower_of(safe_name))
}

/// Synthesizes the reverse-domain bundle identifier for a safe name.
pub fn bundle_identifier(safe_name: &str) -> (r: String)
    ensures
        r@ == bundle_id_of(safe_name@),
{
    let lower = lowercase(safe_name);
    let hy = hyphenate(lower.as_str());
    concat2("io.sublimesolutions.webbox.", hy.as_str())
}

/// The on-disk application name derived from a safe name.
pub open spec fn app_file_name_of(safe_name: Seq<char>) -> Seq<char> {
    safe_name + ".app"@
}

/// Appends the bundle suffix to a safe name.
pub fn app_file_name(safe_name: &str) -> (r: String)
    ensures
        r@ == app_file_name_of(safe_name@),
{
    concat2(safe_name, ".app")
}

/// The three metadata edits, in order: display name twice, then the bundle
/// identifier.
pub fn plist_edits(app_name: &str, bundle_id: &str) -> (v: Vec<(String, String)>)
    ensures
        v@.len() == 3,
        v@[0].0@ == "CFBundleName"@ && v@[0].1@ == app_name@,
        v@[1].0@ == "CFBundleDisplayName"@ && v@[1].1@ == app_name@,
        v@[2].0@ == "CFBundleIdentifier"@ && v@[2].1@ == bundle_id@,
{
    let mut v: Vec<(String, String)> = Vec::new();
    v.push(("CFBundleName".to_owned(), app_name.to_owned()));
    v.push(("CFBundleDisplayName".to_owned(), app_name.to_owned()));
    v.push(("CFBundleIdentifier".to_owned(), bundle_id.to_owned()));
    v
}

} // verus!
