//! Translation of low-level diagnostics into the small set of stable
//! user-facing sentences, by substring matching; a diagnostic that matches
//! no known pattern passes through verbatim.

use vstd::prelude::*;
use crate::text::{contains_str, has_substring};

verus! {

/// The user-facing sentence that a raw diagnostic is translated into.
pub open spec fn friendly(e: Seq<char>) -> Seq<char> {
    if has_substring(e, "permission denied"@) || has_substring(e, "Permission denied"@) {
        "Permission denied. Try choosing a different output location."@
    } else if has_substring(e, "No such file"@) {
        "The selected icon file could not be found."@
    } else if has_substring(e, "sips"@) {
        "Failed to process the icon image. Please try a different image (PNG recommended)."@
    } else if has_substring(e, "iconutil"@) {
        "Failed to create app icon. Please try a different image."@
    } else {
        e
    }
}

/// Substitutes a stable user-facing sentence for a raw diagnostic; an
/// unmatched diagnostic is passed through verbatim.
pub fn user_friendly_error(error: &str) -> (r: String)
    ensures
        r@ == friendly(error@),
{
    if contains_str(error, "permission denied") || contains_str(error, "Permission denied") {
        return "Permission denied. Try choosing a different output location.".to_owned();
    }
    if contains_str(error, "No such file") {
        return "The selected icon file could not be found.".to_owned();
    }
    if contains_str(error, "sips") {
        return "Failed to process the icon image. Please try a different image (PNG recommended)."
            .to_owned();
    }
    if contains_str(error, "iconutil") {
        return "Failed to create app icon. Please try a different image.".to_owned();
    }
    error.to_owned()
}

} // verus!
