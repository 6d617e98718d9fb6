use vstd::prelude::*;

verus! {

/// Declares `std::path::PathBuf` to the verifier as an opaque type: a path is carried
/// through the library and never looked into.
#[verifier::external_type_specification]
#[verifier::external_body]
pub struct ExPathBuf(std::path::PathBuf);

/// The path that `PathBuf::from` makes of a text.
pub uninterp spec fn path_of(text: Seq<char>) -> std::path::PathBuf;

/// Calls `PathBuf::from` on a text. The path depends on the text alone.
#[verifier::external_body]
pub(crate) fn path_from_text(text: &str) -> (path: std::path::PathBuf)
    ensures
        path == path_of(text@),
{
    std::path::PathBuf::from(text)
}

/// A project to be generated: its name, and the directory that receives its files.
#[derive(Debug)]
pub struct Project {
    pub name: String,
    pub path: std::path::PathBuf,
}

impl Project {
    /// A project called `name` that lives in `path`.
    pub fn new(name: &str, path: std::path::PathBuf) -> (project: Self)
        ensures
            project.name@ == name@,
            project.path == path,
    {
        Project { name: name.to_string(), path }
    }
}

} // verus!
