//! Cleaning user-supplied HTML.

use vstd::prelude::*;

verus! {

/// The HTML that ammonia's cleaner, configured as this library configures
/// it, makes of an input text.  The result depends on the input alone.
pub uninterp spec fn ammonia_cleaned(input: Seq<char>) -> Seq<char>;

/// ammonia's `Builder::clean`, then `to_string`, with the default builder
/// except that `rel` is the only attribute allowed on every element and no
/// `rel` value is added to links.  Its output is a function of the input
/// text.
#[verifier::external_body]
fn ammonia_clean(input: &str) -> (cleaned: String)
    ensures
        cleaned@ == ammonia_cleaned(input@),
{
    ammonia::Builder::default()
        .generic_attributes(std::collections::HashSet::from(["rel"]))
        .link_rel(None)
        .clean(input)
        .to_string()
}

/// Cleans user-supplied HTML: scripts, unsafe links and unknown attributes
/// go, safe markup and text stay.
pub fn sanitize_html(input: &str) -> (cleaned: String)
    ensures
        cleaned@ == ammonia_cleaned(input@),
{
    ammonia_clean(input)
}

} // verus!
