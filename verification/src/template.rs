//! Resolution of the prebuilt application shell: the first existing
//! candidate path wins, and when every candidate is missing the failure
//! lists them all.

use vstd::prelude::*;
use crate::text::concat2;

verus! {

/// Picks the first candidate that exists; `None` when every probe failed.
pub fn resolve_template(exists: &Vec<bool>) -> (r: Option<usize>)
    ensures
        match r {
            Some(i) => i < exists@.len() && exists@[i as int] && forall|j: int|
                0 <= j < i ==> !exists@[j],
            None => forall|j: int| 0 <= j < exists@.len() ==> !exists@[j],
        },
{
    let mut i: usize = 0;
    while i < exists.len()
        invariant
            i <= exists@.len(),
            forall|j: int| 0 <= j < i ==> !exists@[j],
        decreases exists@.len() - i,
    {
        if exists[i] {
            return Some(i);
        }
        i += 1;
    }
    None
}

/// The diagnostic listing every candidate that was probed.
pub open spec fn missing_template_message(c0: Seq<char>, c1: Seq<char>, c2: Seq<char>) -> Seq<char> {
    "Template.app not found. Checked:\n- "@ + c0 + "\n- "@ + c1 + "\n- "@ + c2
}

/// Builds the hard-failure message naming all three candidate paths.
pub fn template_not_found(c0: &str, c1: &str, c2: &str) -> (r: String)
    ensures
        r@ == missing_template_message(c0@, c1@, c2@),
{
    let mut s = concat2("Template.app not found. Checked:\n- ", c0);
    let t = concat2("\n- ", c1);
    let u = concat2("\n- ", c2);
    let r = s.concat(t.as_str());
    let r2 = r.concat(u.as_str());
    r2
}

} // verus!
