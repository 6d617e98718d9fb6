pub mod context;
pub mod generator;
pub mod language;
pub mod project;

pub use context::RuntimeContext;
pub use generator::{Plan, Progress, ProjectGenerator, Step};
pub use language::{
    after_command, is_due, Command, Language, LanguageKind, Ran, TemplatePaths, TemplateSet, Word,
};
pub use project::Project;
