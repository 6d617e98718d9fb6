use crate::text::{concat2, concat3};
use vstd::prelude::*;

verus! {

/// The words for a directory that could not be created.
pub open spec fn directory_failure(path: Seq<char>, reason: Seq<char>) -> Seq<char> {
    "Failed to create directory '"@ + path + "': "@ + reason
}

/// The words that a failure to create the directory at `path` is reported with,
/// for the reason given.
pub fn create_directory_failure(path: &str, reason: &str) -> (message: String)
    ensures
        message@ == directory_failure(path@, reason@),
{
    let start = concat3("Failed to create directory '", path, "': ");
    concat2(start.as_str(), reason)
}

} // verus!
