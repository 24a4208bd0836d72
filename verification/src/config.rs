//! Rendering of the configuration file the generated shell application
//! reads at launch: a two-field object carrying the display name and the
//! target URL.

use vstd::prelude::*;

verus! {

/// Names what `serde_json::to_string_pretty` returns for the two-field
/// object `{"name": name, "url": url}`.
pub uninterp spec fn config_json_of(name: Seq<char>, url: Seq<char>) -> Seq<char>;

/// Relies on `serde_json::to_string_pretty` over a string-keyed
/// `serde_json::Value` object, which cannot fail and whose output is a
/// function of the two strings alone.
#[verifier::external_body]
pub(crate) fn render_config(name: &str, url: &str) -> (r: String)
    ensures
        r@ == config_json_of(name@, url@),
{
    let mut obj = serde_json::Map::new();
    obj.insert("name".to_string(), serde_json::Value::String(name.to_string()));
    obj.insert("url".to_string(), serde_json::Value::String(url.to_string()));
    match serde_json::to_string_pretty(&serde_json::Value::Object(obj)) {
        Ok(s) => s,
        Err(_) => String::new(),
    }
}

} // verus!
