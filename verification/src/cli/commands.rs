use crate::error::ProjectError;
use crate::languages::{get_kind, names_python, Python};
use crate::model::context::RuntimeContext;
use crate::model::generator::Plan;
use crate::model::language::{
    command_views, generator_builds, generator_error, generator_plan, setup_of,
    template_paths_of, Command, Language, LanguageKind, TemplatePaths, TemplateSet,
};
use crate::model::project::{path_from_text, path_of, Project};
use crate::text::{concat2, lowercase, texts};
use vstd::prelude::*;

verus! {

/// The configuration file that is read where the command line names none.
pub const DEFAULT_CONFIG_PATH: &'static str = "config/python/default.toml";

/// The project types that are offered where the command line names none, in the
/// order in which they are shown.
pub fn project_types() -> (types: Vec<&'static str>)
    ensures
        types@.map_values(|name: &str| name@) == seq![
            "web"@,
            "cli"@,
            "data_science"@,
            "base"@,
        ],
{
    let mut types: Vec<&'static str> = Vec::new();
    types.push("web");
    types.push("cli");
    types.push("data_science");
    types.push("base");
    proof {
        assert(types@.map_values(|name: &str| name@) == seq![
            "web"@,
            "cli"@,
            "data_science"@,
            "base"@,
        ]);
    }
    types
}

/// The error of a run whose configuration could not be loaded, for the cause
/// given: a configuration error that holds the cause in words.
pub fn configuration_failure(cause: &ProjectError) -> (error: ProjectError)
    ensures
        exists|words: Seq<char>| #[trigger]
            cause.reads(words) && error.is_config("Failed to load configuration: "@ + words),
{
    let words = cause.message();
    ProjectError::Config(concat2("Failed to load configuration: ", words.as_str()))
}

/// The language that `name` stands for. A language that is not supported is a
/// configuration error that names it.
pub fn resolve_kind(name: &str) -> (result: Result<LanguageKind, ProjectError>)
    ensures
        result is Ok <==> names_python(lowercase(name@)),
        result matches Ok(kind) ==> kind == LanguageKind::Python,
        result matches Err(error) ==> error.is_config("Unsupported language: "@ + name@),
{
    match get_kind(name) {
        Some(kind) => Ok(kind),
        None => Err(ProjectError::Config(concat2("Unsupported language: ", name))),
    }
}

/// A run whose language is resolved: the templates of its generator are to be read
/// next.
#[derive(Debug)]
pub struct Resolved {
    pub context: RuntimeContext,
    pub project: Project,
    pub kind: LanguageKind,
}

/// A run whose generator is built: the environment is to be set up next, and the
/// plan is handed out once that is done.
#[derive(Debug)]
pub struct Prepared {
    commands: Vec<Command>,
    plan: Plan,
}

/// Begins a run on what the user chose: resolves the language before anything is
/// read or written. The project bears the chosen name and lies in the directory of
/// that name.
pub fn run(context: RuntimeContext) -> (result: Result<Resolved, ProjectError>)
    ensures
        result is Ok <==> names_python(lowercase(context.language@)),
        result matches Ok(resolved) ==> {
            &&& resolved.context == context
            &&& resolved.kind == LanguageKind::Python
            &&& resolved.project.name@ == context.project_name@
            &&& resolved.project.path == path_of(context.project_name@)
        },
        result matches Err(error) ==> error.is_config(
            "Unsupported language: "@ + context.language@,
        ),
{
    let kind = match resolve_kind(context.language.as_str()) {
        Ok(kind) => kind,
        Err(error) => {
            return Err(error);
        },
    };
    let project = Project::new(
        context.project_name.as_str(),
        path_from_text(context.project_name.as_str()),
    );
    Ok(Resolved { context, project, kind })
}

impl Resolved {
    /// The files to read the templates of the generator from.
    pub fn template_paths(&self) -> (paths: TemplatePaths)
        ensures
            paths@ == template_paths_of(self.kind, self.context.project_type@),
    {
        match self.kind {
            LanguageKind::Python => Python.template_paths(self.context.project_type.as_str()),
        }
    }

    /// Builds the generator from what reading its template files gave, and with it
    /// the plan of the project and the commands of the setup.
    pub fn prepare(&self, templates: TemplateSet) -> (result: Result<Prepared, ProjectError>)
        ensures
            result is Ok <==> generator_builds(self.kind, templates),
            result matches Err(error) ==> generator_error(self.kind, templates, error),
            result matches Ok(prepared) ==> {
                &&& command_views(prepared.commands()@) == setup_of(self.kind)
                &&& prepared.plan()@ == generator_plan(
                    self.kind,
                    self.context.project_type@,
                    templates,
                    self.project,
                    self.context.config,
                )
                &&& prepared.plan().failure matches Some(error) ==> error is Template
            },
    {
        let language = match self.kind {
            LanguageKind::Python => Python,
        };
        let generator = match language.get_generator(
            &self.context.config,
            self.context.project_type.as_str(),
            templates,
        ) {
            Ok(generator) => generator,
            Err(error) => {
                return Err(error);
            },
        };
        let commands = language.setup_environment(&self.project, &self.context.config);
        let plan = generator.generate(&self.project, &self.context.config);
        Ok(Prepared { commands, plan })
    }
}

impl Prepared {
    /// The commands that set up the environment, in order.
    pub closed spec fn commands(self) -> Vec<Command> {
        self.commands
    }

    /// The plan of the project.
    pub closed spec fn plan(self) -> Plan {
        self.plan
    }

    /// The commands that set up the environment, in order. Each that cannot be run,
    /// or ends in failure, ends the setup.
    pub fn setup_commands(&self) -> (commands: &Vec<Command>)
        ensures
            *commands == self.commands(),
    {
        &self.commands
    }

    /// The plan of the project, given how the setup of the environment ended.
    /// Generation follows the setup only where the setup succeeded: a failed setup
    /// is the failure of the run, and no step of the plan is taken.
    pub fn after_setup(self, setup: Result<(), ProjectError>) -> (result: Result<Plan, ProjectError>)
        ensures
            match setup {
                Ok(()) => result == Ok::<Plan, ProjectError>(self.plan()),
                Err(error) => result == Err::<Plan, ProjectError>(error),
            },
    {
        match setup {
            Ok(()) => Ok(self.plan),
            Err(error) => Err(error),
        }
    }
}

/// How a run ends, given how taking the steps of the plan ended: with what the user
/// is told next, or with the failure.
pub fn finish(project_name: &str, written: Result<(), ProjectError>) -> (result: Result<
    Vec<String>,
    ProjectError,
>)
    ensures
        match written {
            Ok(()) => result matches Ok(lines) && texts(lines@) == next_steps_text(project_name@),
            Err(error) => result == Err::<Vec<String>, ProjectError>(error),
        },
{
    match written {
        Ok(()) => Ok(next_steps(project_name)),
        Err(error) => Err(error),
    }
}

/// What the user is told once the project stands.
pub open spec fn next_steps_text(project_name: Seq<char>) -> Seq<Seq<char>> {
    seq![
        "To run your project:"@,
        "1. cd "@ + project_name,
        "2. pip install -r requirements.txt"@,
        "3. python main.py"@,
    ]
}

/// What the user is told once the project stands: how to enter it, install its
/// dependencies and run it.
pub fn next_steps(project_name: &str) -> (lines: Vec<String>)
    ensures
        texts(lines@) == next_steps_text(project_name@),
{
    let mut lines: Vec<String> = Vec::new();
    lines.push("To run your project:".to_string());
    lines.push(concat2("1. cd ", project_name));
    lines.push("2. pip install -r requirements.txt".to_string());
    lines.push("3. python main.py".to_string());
    proof {
        assert(texts(lines@) == next_steps_text(project_name@));
    }
    lines
}

} // verus!
