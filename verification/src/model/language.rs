use crate::config::{archetype_named, Config};
use crate::error::ProjectError;
use crate::languages::python::generators::common::{
    generation_plan, generator_failure, generator_store,
};
use crate::languages::python::{python_paths, python_setup};
use crate::model::generator::{PlanView, ProjectGenerator};
use crate::model::project::Project;
use crate::text::{concat3, texts};
use vstd::prelude::*;

verus! {

/// The files that the three templates of a generator are read from.
#[derive(Debug)]
pub struct TemplatePaths {
    pub gitignore: String,
    pub readme: String,
    pub main: String,
}

/// The paths of a generator's templates as contracts speak of them.
pub struct TemplatePathsView {
    pub gitignore: Seq<char>,
    pub readme: Seq<char>,
    pub main: Seq<char>,
}

impl View for TemplatePaths {
    type V = TemplatePathsView;

    open spec fn view(&self) -> TemplatePathsView {
        TemplatePathsView { gitignore: self.gitignore@, readme: self.readme@, main: self.main@ }
    }
}

/// What reading the three template files of a generator gave: for each the text, or
/// the reason for which it could not be read.
#[derive(Debug)]
pub struct TemplateSet {
    pub gitignore: Result<String, String>,
    pub readme: Result<String, String>,
    pub main: Result<String, String>,
}

/// A word of a command line: a text as it stands, or the path of a file below the
/// project's directory, given by the names that lead to it.
#[derive(Debug)]
pub enum Word {
    Text(String),
    InProject(Vec<String>),
}

/// A word as contracts speak of it.
pub enum WordView {
    Text(Seq<char>),
    InProject(Seq<Seq<char>>),
}

impl View for Word {
    type V = WordView;

    open spec fn view(&self) -> WordView {
        match self {
            Word::Text(text) => WordView::Text(text@),
            Word::InProject(names) => WordView::InProject(texts(names@)),
        }
    }
}

/// A command of the environment setup: the program, its arguments, the file below
/// the project's directory without which the command is left out, and the words
/// that a failure of the command is reported with.
#[derive(Debug)]
pub struct Command {
    pub program: Word,
    pub arguments: Vec<Word>,
    pub needs: Option<Vec<String>>,
    pub failure: String,
}

/// A command as contracts speak of it.
pub struct CommandView {
    pub program: WordView,
    pub arguments: Seq<WordView>,
    pub needs: Option<Seq<Seq<char>>>,
    pub failure: Seq<char>,
}

/// The words of a list as contracts speak of them.
pub open spec fn word_views(words: Seq<Word>) -> Seq<WordView> {
    words.map_values(|word: Word| word@)
}

impl View for Command {
    type V = CommandView;

    open spec fn view(&self) -> CommandView {
        CommandView {
            program: self.program@,
            arguments: word_views(self.arguments@),
            needs: match self.needs {
                Some(names) => Some(texts(names@)),
                None => None,
            },
            failure: self.failure@,
        }
    }
}

/// The commands of a list as contracts speak of them.
pub open spec fn command_views(commands: Seq<Command>) -> Seq<CommandView> {
    commands.map_values(|command: Command| command@)
}

impl Command {
    /// The error for this command when it could not be run or ended in failure, for
    /// the reason given.
    pub fn failed(&self, reason: &str) -> (error: ProjectError)
        ensures
            error.is_generator(self.failure@ + ": "@ + reason@),
    {
        ProjectError::Generator(concat3(self.failure.as_str(), ": ", reason))
    }
}

/// How a command of the environment setup went.
#[derive(Debug)]
pub enum Ran {
    /// The command was not due and was left out.
    LeftOut,
    /// The command was run and ended in success.
    Succeeded,
    /// The command could not be run, or ended in failure, for the reason given.
    Failed(String),
}

/// Whether a command is to be run, given whether the file it needs is there. A
/// command that needs no file is always run.
pub fn is_due(command: &Command, needed_is_there: bool) -> (due: bool)
    ensures
        due == (command.needs is None || needed_is_there),
{
    match &command.needs {
        None => true,
        Some(_) => needed_is_there,
    }
}

/// Goes on after the command at `index` was run or left out, given how that went. A
/// command that failed ends the setup at once with a generator error that names
/// the command's failure and the reason; it is not tried again and no later command
/// is run. Else the next command follows, and after the last one the setup has
/// succeeded.
pub fn after_command(commands: &Vec<Command>, index: usize, ran: &Ran) -> (next: Result<
    Option<usize>,
    ProjectError,
>)
    requires
        index < commands@.len(),
    ensures
        match ran {
            Ran::Failed(reason) => next matches Err(error) && error.is_generator(
                commands@[index as int].failure@ + ": "@ + reason@,
            ),
            _ => next == Ok::<Option<usize>, ProjectError>(
                if index + 1 < commands@.len() {
                    Some((index + 1) as usize)
                } else {
                    None
                },
            ),
        },
{
    match ran {
        Ran::Failed(reason) => Err(commands[index].failed(reason.as_str())),
        _ => {
            if index < commands.len() - 1 {
                Ok(Some(index + 1))
            } else {
                Ok(None)
            }
        },
    }
}

/// The languages that projects can be generated for.
#[derive(Clone, Copy, Debug, PartialEq, Eq, Structural)]
pub enum LanguageKind {
    Python,
}

/// The files that the templates of a generator for `project_type` are read from.
pub open spec fn template_paths_of(kind: LanguageKind, project_type: Seq<char>) -> TemplatePathsView {
    match kind {
        LanguageKind::Python => python_paths(project_type),
    }
}

/// Whether a generator can be built from what reading its template files gave.
pub open spec fn generator_builds(kind: LanguageKind, templates: TemplateSet) -> bool {
    match kind {
        LanguageKind::Python => templates.gitignore is Ok && templates.readme is Ok,
    }
}

/// Whether `error` is the error for a generator that cannot be built from
/// `templates`.
pub open spec fn generator_error(kind: LanguageKind, templates: TemplateSet, error: ProjectError) -> bool {
    match kind {
        LanguageKind::Python => generator_failure(error, templates),
    }
}

/// What the generator for `project_type` that was built from `templates` plans for
/// a project.
pub open spec fn generator_plan(
    kind: LanguageKind,
    project_type: Seq<char>,
    templates: TemplateSet,
    project: Project,
    config: Config,
) -> PlanView {
    match kind {
        LanguageKind::Python => generation_plan(
            generator_store(templates),
            archetype_named(project_type),
            project.name@,
            config,
        ),
    }
}

/// The commands that prepare the environment of a project, in order.
pub open spec fn setup_of(kind: LanguageKind) -> Seq<CommandView> {
    match kind {
        LanguageKind::Python => python_setup(),
    }
}

/// A provider of projects in one language: it builds generators and says how the
/// environment of a project is prepared.
pub trait Language {
    /// The language that this provider stands for.
    spec fn kind(&self) -> LanguageKind;

    /// The files to read the templates of a generator for `project_type` from.
    fn template_paths(&self, project_type: &str) -> (paths: TemplatePaths)
        ensures
            paths@ == template_paths_of(self.kind(), project_type@),
    ;

    /// The generator for `project_type`, built from what reading its template files
    /// gave. A name that no archetype bears gives the generator of `Base`.
    fn get_generator(&self, config: &Config, project_type: &str, templates: TemplateSet) -> (result:
        Result<Box<dyn ProjectGenerator>, ProjectError>)
        ensures
            result is Ok <==> generator_builds(self.kind(), templates),
            result matches Err(error) ==> generator_error(self.kind(), templates, error),
            result matches Ok(generator) ==> forall|project: Project, planned: Config|
                #[trigger] generator.plan(project, planned) == generator_plan(
                    self.kind(),
                    project_type@,
                    templates,
                    project,
                    planned,
                ),
    ;

    /// The commands that prepare the environment of `project`, in order. Each that
    /// cannot be run, or ends in failure, ends the setup.
    fn setup_environment(&self, project: &Project, config: &Config) -> (commands: Vec<Command>)
        ensures
            command_views(commands@) == setup_of(self.kind()),
    ;
}

} // verus!
