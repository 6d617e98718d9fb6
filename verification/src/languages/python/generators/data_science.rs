use super::common::{
    generation_plan, generator_failure, generator_store, GeneratorBase, TEMPLATE_ROOT,
};
use crate::config::{Archetype, Config};
use crate::error::ProjectError;
use crate::model::generator::{Plan, PlanView, ProjectGenerator};
use crate::model::language::TemplateSet;
use crate::model::project::Project;
use crate::templating::engine::{path_in, Store};
use vstd::prelude::*;

verus! {

/// The name of the directory that holds the entry template of data science projects.
pub const PROJECT_TYPE: &'static str = "data_science";

/// The file of the entry template in that directory.
pub const MAIN_SOURCE: &'static str = "main.py.template";

/// The generator of data science projects.
pub struct DataScienceGenerator {
    base: GeneratorBase,
}

impl DataScienceGenerator {
    /// The template store that the generator renders from.
    pub closed spec fn store(&self) -> Store {
        self.base.store()
    }

    /// The directory that the entry template was read from.
    pub closed spec fn template_dir(&self) -> Seq<char> {
        self.base.template_dir()
    }

    /// A generator built from what reading its template files gave. The two shared
    /// template files must have been read: the first that was not is the error. An
    /// entry template whose file could not be read is left out, and generation then
    /// fails at the entry file.
    pub fn new(templates: TemplateSet) -> (result: Result<Self, ProjectError>)
        ensures
            result is Ok <==> templates.gitignore is Ok && templates.readme is Ok,
            result matches Ok(generator) ==> {
                &&& generator.store() == generator_store(templates)
                &&& generator.template_dir() == path_in(TEMPLATE_ROOT@, PROJECT_TYPE@)
            },
            result matches Err(error) ==> generator_failure(error, templates),
    {
        let TemplateSet { gitignore, readme, main } = templates;
        let mut base = match GeneratorBase::new(PROJECT_TYPE, gitignore, readme) {
            Ok(base) => base,
            Err(error) => {
                return Err(error);
            },
        };
        let _ = base.load_main_template(MAIN_SOURCE, &main);
        Ok(DataScienceGenerator { base })
    }
}

impl ProjectGenerator for DataScienceGenerator {
    open spec fn plan(&self, project: Project, config: Config) -> PlanView {
        generation_plan(self.store(), Archetype::DataScience, project.name@, config)
    }

    fn generate(&self, project: &Project, config: &Config) -> (plan: Plan) {
        self.base.generate(Archetype::DataScience, project, config)
    }
}

} // verus!
