use crate::config::Config;
use crate::model::project::{path_from_text, path_of};
use vstd::prelude::*;

verus! {

/// What a run works on: the configuration and what the user chose.
#[derive(Debug)]
pub struct RuntimeContext {
    pub config: Config,
    pub language: String,
    pub project_type: String,
    pub project_name: String,
    pub project_path: std::path::PathBuf,
}

impl RuntimeContext {
    /// The context of a run. The project lies in the directory that bears its name.
    pub fn new(config: Config, language: String, project_type: String, project_name: String) -> (context:
        Self)
        ensures
            context.config == config,
            context.language == language,
            context.project_type == project_type,
            context.project_name == project_name,
            context.project_path == path_of(project_name@),
    {
        let project_path = path_from_text(project_name.as_str());
        RuntimeContext { config, language, project_type, project_path, project_name }
    }

    /// The same context with the project in the directory `path`.
    pub fn with_path(self, path: std::path::PathBuf) -> (context: Self)
        ensures
            context.config == self.config,
            context.language == self.language,
            context.project_type == self.project_type,
            context.project_name == self.project_name,
            context.project_path == path,
    {
        let mut context = self;
        context.project_path = path;
        context
    }
}

} // verus!
