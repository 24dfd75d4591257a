//! The page served where no route matches.

use vstd::prelude::*;

verus! {

/// The page that says that `uri` was not found.
pub fn not_found(uri: &str) -> (page: String)
    ensures
        page@ == "<p>Page "@ + uri@ + " not found<p>"@,
{
    let mut page = String::from_str("<p>Page ");
    page.append(uri);
    page.append(" not found<p>");
    page
}

} // verus!
