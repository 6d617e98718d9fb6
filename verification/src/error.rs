use crate::text::concat2;
use vstd::prelude::*;

verus! {

/// Declares `handlebars::RenderError` to the verifier as an opaque type: the library
/// hands such an error on and never looks into it.
#[verifier::external_type_specification]
#[verifier::external_body]
pub struct ExRenderError(handlebars::RenderError);

/// Declares `std::io::Error` to the verifier as an opaque type: the library hands
/// such an error on and never looks into it.
#[verifier::external_type_specification]
#[verifier::external_body]
pub struct ExIoError(std::io::Error);

/// Why a step of generating a project failed.
#[derive(Debug)]
pub enum ProjectError {
    /// A file or a directory could not be written.
    Io(std::io::Error),
    /// A template is unknown, does not parse, or names a variable that the context
    /// lacks.
    Template(handlebars::RenderError),
    /// The configuration, or a file it points to, could not be had.
    Config(String),
    /// A generator or the environment it prepares failed.
    Generator(String),
}

impl From<std::io::Error> for ProjectError {
    /// A failure to read or write is an error of the `Io` kind.
    fn from(cause: std::io::Error) -> (error: Self) {
        ProjectError::Io(cause)
    }
}

impl vstd::std_specs::convert::FromSpecImpl<std::io::Error> for ProjectError {
    open spec fn obeys_from_spec() -> bool {
        true
    }

    open spec fn from_spec(cause: std::io::Error) -> Self {
        ProjectError::Io(cause)
    }
}

impl From<handlebars::RenderError> for ProjectError {
    /// A failure to render is an error of the `Template` kind.
    fn from(cause: handlebars::RenderError) -> (error: Self) {
        ProjectError::Template(cause)
    }
}

impl vstd::std_specs::convert::FromSpecImpl<handlebars::RenderError> for ProjectError {
    open spec fn obeys_from_spec() -> bool {
        true
    }

    open spec fn from_spec(cause: handlebars::RenderError) -> Self {
        ProjectError::Template(cause)
    }
}

impl ProjectError {
    /// This is a configuration error whose text is `text`.
    pub open spec fn is_config(self, text: Seq<char>) -> bool {
        self matches ProjectError::Config(message) && message@ == text
    }

    /// This is a generator error whose text is `text`.
    pub open spec fn is_generator(self, text: Seq<char>) -> bool {
        self matches ProjectError::Generator(message) && message@ == text
    }

    /// The words that every message of this kind of error starts with.
    pub open spec fn heading(self) -> Seq<char> {
        match self {
            ProjectError::Io(_) => "IO error: "@,
            ProjectError::Template(_) => "Template error: "@,
            ProjectError::Config(_) => "Configuration error: "@,
            ProjectError::Generator(_) => "Generator error: "@,
        }
    }

    /// `text` is this error in words: the heading of its kind, then what went wrong,
    /// which for an error from outside is what that error shows itself as.
    pub open spec fn reads(self, text: Seq<char>) -> bool {
        match self {
            ProjectError::Io(cause) => exists|detail: String|
                #[trigger] vstd::string::to_string_from_display_ensures::<std::io::Error>(
                    &cause,
                    detail,
                ) && text == self.heading() + detail@,
            ProjectError::Template(cause) => exists|detail: String|
                #[trigger] vstd::string::to_string_from_display_ensures::<handlebars::RenderError>(
                    &cause,
                    detail,
                ) && text == self.heading() + detail@,
            ProjectError::Config(detail) => text == self.heading() + detail@,
            ProjectError::Generator(detail) => text == self.heading() + detail@,
        }
    }

    /// The error in words: the heading of its kind, then what went wrong.
    pub fn message(&self) -> (text: String)
        ensures
            self.reads(text@),
    {
        match self {
            ProjectError::Io(cause) => {
                let detail = cause.to_string();
                concat2("IO error: ", detail.as_str())
            },
            ProjectError::Template(cause) => {
                let detail = cause.to_string();
                concat2("Template error: ", detail.as_str())
            },
            ProjectError::Config(detail) => concat2("Configuration error: ", detail.as_str()),
            ProjectError::Generator(detail) => concat2("Generator error: ", detail.as_str()),
        }
    }
}

} // verus!
