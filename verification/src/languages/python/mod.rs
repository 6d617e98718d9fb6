pub mod generators;

use crate::config::{archetype_named, Archetype, Config};
use crate::error::ProjectError;
use crate::model::generator::ProjectGenerator;
use crate::model::language::{
    Command, CommandView, Language, LanguageKind, TemplatePaths, TemplatePathsView, TemplateSet,
    Word, WordView,
};
use crate::model::project::Project;
use crate::templating::engine::{join_path, path_in};
use crate::text::texts;
use generators::base::BaseGenerator;
use generators::cli::CliGenerator;
use generators::common::{
    BASE_TEMPLATE_DIR, GITIGNORE_SOURCE, README_SOURCE, REQUIREMENTS_FILE, TEMPLATE_ROOT,
};
use generators::data_science::DataScienceGenerator;
use generators::web::WebGenerator;
use vstd::prelude::*;

verus! {

/// The provider of Python projects.
#[derive(Debug)]
pub struct Python;

/// The name of the directory that holds the entry template of an archetype.
pub open spec fn archetype_dir(archetype: Archetype) -> Seq<char> {
    match archetype {
        Archetype::Web => generators::web::PROJECT_TYPE@,
        Archetype::Cli => generators::cli::PROJECT_TYPE@,
        Archetype::DataScience => generators::data_science::PROJECT_TYPE@,
        Archetype::Base => generators::base::PROJECT_TYPE@,
    }
}

/// The file of the entry template of an archetype in that directory.
pub open spec fn main_source(archetype: Archetype) -> Seq<char> {
    match archetype {
        Archetype::Web => generators::web::MAIN_SOURCE@,
        Archetype::Cli => generators::cli::MAIN_SOURCE@,
        Archetype::DataScience => generators::data_science::MAIN_SOURCE@,
        Archetype::Base => generators::base::MAIN_SOURCE@,
    }
}

/// The files of the templates of a Python project: the two shared ones lie in the
/// base directory whatever the archetype, the entry template in the directory of
/// the archetype that `project_type` names.
pub open spec fn python_paths(project_type: Seq<char>) -> TemplatePathsView {
    let archetype = archetype_named(project_type);
    TemplatePathsView {
        gitignore: path_in(BASE_TEMPLATE_DIR@, GITIGNORE_SOURCE@),
        readme: path_in(BASE_TEMPLATE_DIR@, README_SOURCE@),
        main: path_in(path_in(TEMPLATE_ROOT@, archetype_dir(archetype)), main_source(archetype)),
    }
}

/// The shared templates are read from the same two files of the base directory
/// whatever the project type; the entry template is read from the directory of the
/// archetype, which for a project type that names none is that of `Base`.
pub proof fn lemma_template_paths(project_type: Seq<char>, other: Seq<char>)
    ensures
        python_paths(project_type).gitignore == python_paths(other).gitignore,
        python_paths(project_type).readme == python_paths(other).readme,
        python_paths(project_type).gitignore == path_in(BASE_TEMPLATE_DIR@, GITIGNORE_SOURCE@),
        python_paths(project_type).readme == path_in(BASE_TEMPLATE_DIR@, README_SOURCE@),
        archetype_named(project_type) == archetype_named(other) ==> python_paths(project_type)
            == python_paths(other),
        archetype_named(project_type) == Archetype::Base ==> python_paths(project_type).main
            == path_in(
            path_in(TEMPLATE_ROOT@, generators::base::PROJECT_TYPE@),
            generators::base::MAIN_SOURCE@,
        ),
{
}

/// The command that makes the virtual environment `venv` in the project's
/// directory.
pub open spec fn create_environment() -> CommandView {
    CommandView {
        program: WordView::Text("python"@),
        arguments: seq![
            WordView::Text("-m"@),
            WordView::Text("venv"@),
            WordView::InProject(seq!["venv"@]),
        ],
        needs: None,
        failure: "Failed to create virtual environment"@,
    }
}

/// The command that installs what the dependency manifest lists into the virtual
/// environment. It is left out where the project has no manifest.
pub open spec fn install_dependencies() -> CommandView {
    CommandView {
        program: WordView::InProject(seq!["venv"@, "bin"@, "pip"@]),
        arguments: seq![
            WordView::Text("install"@),
            WordView::Text("-r"@),
            WordView::InProject(seq![REQUIREMENTS_FILE@]),
        ],
        needs: Some(seq![REQUIREMENTS_FILE@]),
        failure: "Failed to install dependencies"@,
    }
}

/// The word for a text as it stands.
fn text(word: &str) -> (result: Word)
    ensures
        result@ == WordView::Text(word@),
{
    Word::Text(word.to_string())
}

/// The names `first`, and then `rest`, as owned strings.
fn names(first: &str, rest: Vec<String>) -> (result: Vec<String>)
    ensures
        texts(result@) == seq![first@] + texts(rest@),
{
    let mut result: Vec<String> = Vec::new();
    result.push(first.to_string());
    let mut rest = rest;
    let ghost tail = rest@;
    result.append(&mut rest);
    proof {
        assert(texts(result@) == seq![first@] + texts(tail));
    }
    result
}

/// The word for the file below the project's directory that `names` lead to.
fn in_project(names: Vec<String>) -> (result: Word)
    ensures
        result@ == WordView::InProject(texts(names@)),
{
    Word::InProject(names)
}

/// The commands that prepare the environment of a Python project: the virtual
/// environment first, then the dependencies.
pub open spec fn python_setup() -> Seq<CommandView> {
    seq![create_environment(), install_dependencies()]
}

impl Language for Python {
    open spec fn kind(&self) -> LanguageKind {
        LanguageKind::Python
    }

    fn template_paths(&self, project_type: &str) -> (paths: TemplatePaths) {
        let (dir, source) = match Archetype::from_name(project_type) {
            Archetype::Web => (generators::web::PROJECT_TYPE, generators::web::MAIN_SOURCE),
            Archetype::Cli => (generators::cli::PROJECT_TYPE, generators::cli::MAIN_SOURCE),
            Archetype::DataScience => (
                generators::data_science::PROJECT_TYPE,
                generators::data_science::MAIN_SOURCE,
            ),
            Archetype::Base => (generators::base::PROJECT_TYPE, generators::base::MAIN_SOURCE),
        };
        let template_dir = join_path(TEMPLATE_ROOT, dir);
        TemplatePaths {
            gitignore: join_path(BASE_TEMPLATE_DIR, GITIGNORE_SOURCE),
            readme: join_path(BASE_TEMPLATE_DIR, README_SOURCE),
            main: join_path(template_dir.as_str(), source),
        }
    }

    fn get_generator(&self, _config: &Config, project_type: &str, templates: TemplateSet) -> (result:
        Result<Box<dyn ProjectGenerator>, ProjectError>) {
        match Archetype::from_name(project_type) {
            Archetype::Web => match WebGenerator::new(templates) {
                Ok(generator) => Ok(Box::new(generator)),
                Err(error) => Err(error),
            },
            Archetype::Cli => match CliGenerator::new(templates) {
                Ok(generator) => Ok(Box::new(generator)),
                Err(error) => Err(error),
            },
            Archetype::DataScience => match DataScienceGenerator::new(templates) {
                Ok(generator) => Ok(Box::new(generator)),
                Err(error) => Err(error),
            },
            Archetype::Base => match BaseGenerator::new(templates) {
                Ok(generator) => Ok(Box::new(generator)),
                Err(error) => Err(error),
            },
        }
    }

    fn setup_environment(&self, _project: &Project, _config: &Config) -> (commands: Vec<Command>) {
        let mut create_arguments: Vec<Word> = Vec::new();
        create_arguments.push(text("-m"));
        create_arguments.push(text("venv"));
        create_arguments.push(in_project(names("venv", Vec::new())));
        let create = Command {
            program: text("python"),
            arguments: create_arguments,
            needs: None,
            failure: "Failed to create virtual environment".to_string(),
        };
        let mut install_arguments: Vec<Word> = Vec::new();
        install_arguments.push(text("install"));
        install_arguments.push(text("-r"));
        install_arguments.push(in_project(names(REQUIREMENTS_FILE, Vec::new())));
        let pip = names("venv", names("bin", names("pip", Vec::new())));
        proof {
            assert(texts(pip@) == seq!["venv"@, "bin"@, "pip"@]);
        }
        let install = Command {
            program: in_project(pip),
            arguments: install_arguments,
            needs: Some(names(REQUIREMENTS_FILE, Vec::new())),
            failure: "Failed to install dependencies".to_string(),
        };
        proof {
            assert(create@.arguments == create_environment().arguments);
            assert(create@ == create_environment());
            assert(install@.arguments == install_dependencies().arguments);
            assert(install@.program == install_dependencies().program);
            assert(install@.needs == install_dependencies().needs);
            assert(install@ == install_dependencies());
        }
        let mut commands: Vec<Command> = Vec::new();
        commands.push(create);
        commands.push(install);
        proof {
            assert(crate::model::language::command_views(commands@) == python_setup());
        }
        commands
    }
}

} // verus!
