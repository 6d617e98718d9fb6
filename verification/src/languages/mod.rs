pub mod python;

use crate::model::language::{Language, LanguageKind};
use crate::text::{lowercase, to_lowercase};
use vstd::prelude::*;

pub use python::Python;

verus! {

/// Whether a name in lowercase is one of the names of Python.
pub open spec fn names_python(normalized: Seq<char>) -> bool {
    normalized == "python"@ || normalized == "py"@
}

/// The language that a name in lowercase stands for: Python for `python` and `py`,
/// none for every other name.
pub fn kind_named(normalized: &str) -> (result: Option<LanguageKind>)
    ensures
        result is Some <==> names_python(normalized@),
        result matches Some(kind) ==> kind == LanguageKind::Python,
{
    if normalized.eq("python") || normalized.eq("py") {
        Some(LanguageKind::Python)
    } else {
        None
    }
}

/// The language that `name` stands for, whatever the case of its letters; none for
/// a language that is not supported.
pub fn get_kind(name: &str) -> (result: Option<LanguageKind>)
    ensures
        result is Some <==> names_python(lowercase(name@)),
        result matches Some(kind) ==> kind == LanguageKind::Python,
{
    let normalized = to_lowercase(name);
    kind_named(normalized.as_str())
}

/// The provider of the language that a name in lowercase stands for: that of Python
/// for `python` and `py`, none for every other name.
pub fn language_named(normalized: &str) -> (result: Option<Box<dyn Language>>)
    ensures
        result is Some <==> names_python(normalized@),
        result matches Some(language) ==> language.kind() == LanguageKind::Python,
{
    match kind_named(normalized) {
        Some(LanguageKind::Python) => Some(Box::new(Python)),
        None => None,
    }
}

/// The provider of the language that `name` stands for, whatever the case of its
/// letters; none for a language that is not supported.
pub fn get_language(name: &str) -> (result: Option<Box<dyn Language>>)
    ensures
        result is Some <==> names_python(lowercase(name@)),
        result matches Some(language) ==> language.kind() == LanguageKind::Python,
{
    match get_kind(name) {
        Some(LanguageKind::Python) => Some(Box::new(Python)),
        None => None,
    }
}

/// The languages that projects can be generated for.
pub fn supported_languages() -> (languages: Vec<&'static str>)
    ensures
        languages@.map_values(|language: &str| language@) == seq!["python"@],
{
    let mut languages: Vec<&'static str> = Vec::new();
    languages.push("python");
    proof {
        assert(languages@.map_values(|language: &str| language@) == seq!["python"@]);
    }
    languages
}

} // verus!
