//! The lines in which a branch tells what it does.

use vstd::prelude::*;

verus! {

/// The line that says which page a branch follows.
pub fn following(page: &str) -> (line: String)
    ensures
        line@ == "Following link: "@ + page@,
{
    String::from_str("Following link: ").concat(page)
}

/// The line that says where the first link of the followed page points.
pub fn first_link(page: &str, target: &str) -> (line: String)
    ensures
        line@ == "First link on "@ + page@ + ": "@ + target@,
{
    String::from_str("First link on ").concat(page).concat(": ").concat(target)
}

/// The line that says under which name the download was saved.
pub fn downloaded(name: &str) -> (line: String)
    ensures
        line@ == "Downloaded file: "@ + name@,
{
    String::from_str("Downloaded file: ").concat(name)
}

/// The line that says that the followed page has no links.
pub fn no_links(page: &str) -> (line: String)
    ensures
        line@ == "No links found on "@ + page@,
{
    String::from_str("No links found on ").concat(page)
}

} // verus!
