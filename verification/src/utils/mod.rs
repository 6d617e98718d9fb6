pub mod file_operations;
pub mod template_helpers;

pub use template_helpers::{language_context, merge_contexts, project_context, Context};
