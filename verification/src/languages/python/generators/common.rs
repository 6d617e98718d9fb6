use crate::config::{Archetype, Config};
use crate::error::ProjectError;
use crate::model::generator::{
    carried_out, lemma_carried_out_again, Plan, PlanView, Step, StepView,
};
use crate::model::language::TemplateSet;
use crate::model::project::Project;
use crate::templating::engine::{
    join_path, path_in, source_failure, Store, TemplateFile, TemplatingEngine,
};
use crate::text::{
    join, joined, lemma_joined_lines, lines_text, lowercase, texts, uppercase, TextMap,
};
use crate::utils::template_helpers::{
    language_context, language_variables, merge_contexts, merged, project_context,
    project_variables, Context,
};
use vstd::prelude::*;

verus! {

/// The name under which the template of `.gitignore` is registered.
pub const GITIGNORE_TEMPLATE: &'static str = "gitignore";

/// The name under which the template of `README.md` is registered.
pub const README_TEMPLATE: &'static str = "readme";

/// The name under which the template of the entry file is registered.
pub const MAIN_TEMPLATE: &'static str = "main";

/// The file that tells version control what to leave out.
pub const GITIGNORE_FILE: &'static str = ".gitignore";

/// The file that introduces the project.
pub const README_FILE: &'static str = "README.md";

/// The entry file of a Python project.
pub const MAIN_FILE: &'static str = "main.py";

/// The dependency manifest of a Python project.
pub const REQUIREMENTS_FILE: &'static str = "requirements.txt";

/// The directory below which the templates of every archetype lie.
pub const TEMPLATE_ROOT: &'static str = "templates/python";

/// The directory of the templates that all archetypes share.
pub const BASE_TEMPLATE_DIR: &'static str = "templates/python/base";

/// The file of the shared directory that holds the template of `.gitignore`.
pub const GITIGNORE_SOURCE: &'static str = "gitignore.template";

/// The file of the shared directory that holds the template of `README.md`.
pub const README_SOURCE: &'static str = "readme.template";

/// The store of the templates that all archetypes share, once both are registered.
pub open spec fn base_store(gitignore: Seq<char>, readme: Seq<char>) -> Store {
    Store::empty().with(GITIGNORE_TEMPLATE@, gitignore).with(README_TEMPLATE@, readme)
}

/// The store of a generator that was built from `set`: the two shared templates,
/// and the entry template where its file could be read.
pub open spec fn generator_store(set: TemplateSet) -> Store {
    let shared = base_store(set.gitignore->Ok_0@, set.readme->Ok_0@);
    match set.main {
        Ok(text) => shared.with(MAIN_TEMPLATE@, text@),
        Err(_) => shared,
    }
}

/// The error of a generator that could not be built: that of the first shared
/// template file that could not be read.
pub open spec fn shared_failure(
    error: ProjectError,
    gitignore: Result<String, String>,
    readme: Result<String, String>,
) -> bool {
    match gitignore {
        Err(reason) => source_failure(
            error,
            path_in(BASE_TEMPLATE_DIR@, GITIGNORE_SOURCE@),
            reason@,
        ),
        Ok(_) => source_failure(
            error,
            path_in(BASE_TEMPLATE_DIR@, README_SOURCE@),
            readme->Err_0@,
        ),
    }
}

/// The error of a generator that could not be built from `set`: that of the first
/// shared template file that could not be read.
pub open spec fn generator_failure(error: ProjectError, set: TemplateSet) -> bool {
    shared_failure(error, set.gitignore, set.readme)
}

/// The variables that the templates of a project see: those of the project, then
/// those of the configured language.
pub open spec fn generation_context(project_name: Seq<char>, config: Config) -> TextMap {
    merged(
        seq![
            project_variables(project_name, lowercase(project_name), uppercase(project_name)),
            language_variables(config.general.language@, config.general.version@),
        ],
    )
}

/// The step that writes what the template `template` renders to into the file
/// `filename`; `None` where rendering fails.
pub open spec fn rendered_step(
    store: Store,
    template: Seq<char>,
    filename: Seq<char>,
    context: TextMap,
) -> Option<StepView> {
    match store.renders(template, context) {
        Some(text) => Some(StepView::WriteFile { name: filename, content: text }),
        None => None,
    }
}

/// The lines of a dependency manifest: the dependencies in the order given, then
/// the test framework, if there is one.
pub open spec fn manifest_lines(dependencies: Seq<Seq<char>>, framework: Option<Seq<char>>) -> Seq<
    Seq<char>,
> {
    match framework {
        Some(name) => dependencies.push(name),
        None => dependencies,
    }
}

/// The text of a dependency manifest: its lines with a line feed between each two
/// of them, and one line feed at the end.
pub open spec fn manifest_text(dependencies: Seq<Seq<char>>, framework: Option<Seq<char>>) -> Seq<
    char,
> {
    joined(manifest_lines(dependencies, framework), "\n"@) + "\n"@
}

/// The test framework that a configuration names: none where the name is empty.
pub open spec fn configured_framework(config: Config) -> Option<Seq<char>> {
    if config.test.framework@.len() == 0 {
        None
    } else {
        Some(config.test.framework@)
    }
}

/// The step that writes the dependency manifest.
pub open spec fn manifest_step(dependencies: Seq<Seq<char>>, framework: Option<Seq<char>>) -> StepView {
    StepView::WriteFile {
        name: REQUIREMENTS_FILE@,
        content: manifest_text(dependencies, framework),
    }
}

/// The steps that write the shared files, and whether rendering one of them fails.
pub open spec fn base_files_plan(store: Store, context: TextMap) -> PlanView {
    let gitignore = rendered_step(store, GITIGNORE_TEMPLATE@, GITIGNORE_FILE@, context);
    let readme = rendered_step(store, README_TEMPLATE@, README_FILE@, context);
    if gitignore is None {
        PlanView { steps: Seq::empty(), failed: true }
    } else if readme is None {
        PlanView { steps: seq![gitignore->0], failed: true }
    } else {
        PlanView { steps: seq![gitignore->0, readme->0], failed: false }
    }
}

/// The plan of a project of one archetype: the directory, the two shared files, the
/// entry file and, but for `Base`, the dependency manifest with the test framework
/// as its last line, which is left out where the configuration names none. The plan
/// ends at the first template that fails to render.
pub open spec fn generation_plan(
    store: Store,
    archetype: Archetype,
    project_name: Seq<char>,
    config: Config,
) -> PlanView {
    let context = generation_context(project_name, config);
    let shared = base_files_plan(store, context);
    let main = rendered_step(store, MAIN_TEMPLATE@, MAIN_FILE@, context);
    let begun = seq![StepView::CreateDirectory] + shared.steps;
    if shared.failed {
        PlanView { steps: begun, failed: true }
    } else if main is None {
        PlanView { steps: begun, failed: true }
    } else if archetype.declares_dependencies() {
        PlanView {
            steps: begun.push(main->0).push(
                manifest_step(
                    texts(config.section(archetype).dependencies@),
                    configured_framework(config),
                ),
            ),
            failed: false,
        }
    } else {
        PlanView { steps: begun.push(main->0), failed: false }
    }
}

/// What the generators of all archetypes share: the template store, and the
/// directory of the archetype's own templates.
pub struct GeneratorBase {
    pub engine: TemplatingEngine,
    template_dir: String,
}

impl GeneratorBase {
    /// The template store of the generator.
    pub closed spec fn store(&self) -> Store {
        self.engine@
    }

    /// The directory of the archetype's own templates.
    pub closed spec fn template_dir(&self) -> Seq<char> {
        self.template_dir@
    }

    /// The base of a generator for `project_type`, given what reading the two shared
    /// template files gave. Both must have been read: the first that was not is the
    /// error.
    pub fn new(
        project_type: &str,
        gitignore: Result<String, String>,
        readme: Result<String, String>,
    ) -> (result: Result<Self, ProjectError>)
        ensures
            result is Ok <==> gitignore is Ok && readme is Ok,
            result matches Ok(base) ==> {
                &&& base.store() == base_store(gitignore->Ok_0@, readme->Ok_0@)
                &&& base.template_dir() == path_in(TEMPLATE_ROOT@, project_type@)
            },
            result matches Err(error) ==> shared_failure(error, gitignore, readme),
    {
        let template_dir = join_path(TEMPLATE_ROOT, project_type);
        let mut engine = TemplatingEngine::new();
        let mut files: Vec<TemplateFile> = Vec::new();
        files.push(
            TemplateFile {
                name: GITIGNORE_TEMPLATE.to_string(),
                filename: GITIGNORE_SOURCE.to_string(),
                contents: gitignore,
            },
        );
        files.push(
            TemplateFile {
                name: README_TEMPLATE.to_string(),
                filename: README_SOURCE.to_string(),
                contents: readme,
            },
        );
        proof {
            crate::templating::engine::lemma_first_failure(files@);
            crate::templating::engine::lemma_loaded_pair(engine@, files@);
        }
        match engine.load_templates_from_dir(BASE_TEMPLATE_DIR, &files) {
            Ok(()) => Ok(GeneratorBase { engine, template_dir }),
            Err(error) => Err(error),
        }
    }

    /// The base with the entry template registered from the file `template_subpath`
    /// of the archetype's directory, given what reading that file gave.
    pub fn with_main_template(
        self,
        template_subpath: &str,
        contents: &Result<String, String>,
    ) -> (result: Result<Self, ProjectError>)
        ensures
            match contents {
                Ok(text) => result matches Ok(base) && base.store() == self.store().with(
                    MAIN_TEMPLATE@,
                    text@,
                ) && base.template_dir() == self.template_dir(),
                Err(reason) => result matches Err(error) && source_failure(
                    error,
                    path_in(self.template_dir(), template_subpath@),
                    reason@,
                ),
            },
    {
        let mut base = self;
        match base.load_main_template(template_subpath, contents) {
            Ok(()) => Ok(base),
            Err(error) => Err(error),
        }
    }

    /// Registers the entry template from the file `filename` of the archetype's
    /// directory, given what reading that file gave. A file that could not be read
    /// leaves the store as it was.
    pub fn load_main_template(&mut self, filename: &str, contents: &Result<String, String>) -> (result:
        Result<(), ProjectError>)
        ensures
            final(self).template_dir() == old(self).template_dir(),
            match contents {
                Ok(text) => result is Ok && final(self).store() == old(self).store().with(
                    MAIN_TEMPLATE@,
                    text@,
                ),
                Err(reason) => result matches Err(error) && source_failure(
                    error,
                    path_in(old(self).template_dir(), filename@),
                    reason@,
                ) && final(self).store() == old(self).store(),
            },
    {
        let path = join_path(self.template_dir.as_str(), filename);
        self.engine.register_template_file(MAIN_TEMPLATE, path.as_str(), contents)
    }

    /// The step that makes the project's directory.
    pub fn create_project_structure(&self) -> (step: Step)
        ensures
            step@ == StepView::CreateDirectory,
    {
        Step::CreateDirectory
    }

    /// The variables that the templates of `project` see.
    pub fn create_context(&self, project: &Project, config: &Config) -> (context: Context)
        ensures
            context@ == generation_context(project.name@, *config),
    {
        let project_ctx = project_context(project.name.as_str());
        let language_ctx = language_context(
            config.general.language.as_str(),
            config.general.version.as_str(),
        );
        let parts: [&Context; 2] = [&project_ctx, &language_ctx];
        proof {
            assert(crate::utils::template_helpers::context_maps(parts@) == seq![
                project_ctx@,
                language_ctx@,
            ]);
        }
        merge_contexts(parts.as_slice())
    }

    /// Renders `template` with `context` into the step that writes the file
    /// `filename`.
    pub fn render_and_write(&self, template: &str, filename: &str, context: &Context) -> (result:
        Result<Step, ProjectError>)
        ensures
            match rendered_step(self.store(), template@, filename@, context@) {
                Some(step) => result matches Ok(written) && written@ == step,
                None => result matches Err(error) && error is Template,
            },
    {
        match self.engine.render(template, context) {
            Ok(content) => Ok(Step::WriteFile { name: filename.to_string(), content }),
            Err(error) => Err(error),
        }
    }

    /// Plans the files that every archetype has: `.gitignore`, then `README.md`.
    pub fn generate_base_files(&self, project: &Project, config: &Config) -> (plan: Plan)
        ensures
            plan@ == base_files_plan(self.store(), generation_context(project.name@, *config)),
            plan.failure matches Some(error) ==> error is Template,
    {
        let context = self.create_context(project, config);
        let mut plan = Plan::new();
        match self.render_and_write(GITIGNORE_TEMPLATE, GITIGNORE_FILE, &context) {
            Ok(step) => {
                plan.push(step);
            },
            Err(error) => {
                plan.fail(error);
                return plan;
            },
        }
        match self.render_and_write(README_TEMPLATE, README_FILE, &context) {
            Ok(step) => {
                plan.push(step);
            },
            Err(error) => {
                plan.fail(error);
            },
        }
        proof {
            let expected = base_files_plan(self.store(), context@);
            assert(plan@.steps == expected.steps);
        }
        plan
    }

    /// Plans the entry file, `main.py`.
    pub fn generate_main_file(&self, project: &Project, config: &Config) -> (result: Result<
        Step,
        ProjectError,
    >)
        ensures
            match rendered_step(
                self.store(),
                MAIN_TEMPLATE@,
                MAIN_FILE@,
                generation_context(project.name@, *config),
            ) {
                Some(step) => result matches Ok(written) && written@ == step,
                None => result matches Err(error) && error is Template,
            },
    {
        let context = self.create_context(project, config);
        self.render_and_write(MAIN_TEMPLATE, MAIN_FILE, &context)
    }

    /// Plans the dependency manifest, `requirements.txt`: one dependency on each
    /// line, in the order given, then the test framework, if there is one.
    pub fn generate_requirements(&self, dependencies: &[String], test_framework: Option<&str>) -> (step:
        Step)
        ensures
            step@ == manifest_step(
                texts(dependencies@),
                match test_framework {
                    Some(framework) => Some(framework@),
                    None => None,
                },
            ),
    {
        let mut content = join(dependencies, "\n");
        match test_framework {
            Some(framework) => {
                if dependencies.len() > 0 {
                    content.append("\n");
                }
                content.append(framework);
                proof {
                    assert(texts(dependencies@).push(framework@).drop_last() == texts(
                        dependencies@,
                    ));
                }
            },
            None => {},
        }
        content.append("\n");
        Step::WriteFile { name: REQUIREMENTS_FILE.to_string(), content }
    }

    /// Plans a whole project of `archetype`: the directory, the shared files, the
    /// entry file and, where the archetype declares dependencies, the manifest.
    pub fn generate(&self, archetype: Archetype, project: &Project, config: &Config) -> (plan: Plan)
        ensures
            plan@ == generation_plan(self.store(), archetype, project.name@, *config),
            plan.failure matches Some(error) ==> error is Template,
    {
        let mut plan = Plan::new();
        plan.push(self.create_project_structure());
        let Plan { steps, failure } = self.generate_base_files(project, config);
        plan.append(steps);
        match failure {
            Some(error) => {
                plan.fail(error);
                return plan;
            },
            None => {},
        }
        match self.generate_main_file(project, config) {
            Ok(step) => {
                plan.push(step);
            },
            Err(error) => {
                plan.fail(error);
                return plan;
            },
        }
        match archetype {
            Archetype::Base => {},
            _ => {
                let section = config.section_of(archetype);
                let framework = if config.test.framework.as_str().is_empty() {
                    None
                } else {
                    Some(config.test.framework.as_str())
                };
                plan.push(self.generate_requirements(section.dependencies.as_slice(), framework));
            },
        }
        plan
    }
}

/// A manifest with at least one line holds each of its lines with one line feed
/// behind it: the dependencies in the order given, then the test framework as the
/// last line, and nothing after the line feed of the last line.
pub proof fn lemma_manifest_lines(dependencies: Seq<Seq<char>>, framework: Option<Seq<char>>)
    requires
        manifest_lines(dependencies, framework).len() > 0,
    ensures
        manifest_text(dependencies, framework) == lines_text(
            manifest_lines(dependencies, framework),
        ),
{
    lemma_joined_lines(manifest_lines(dependencies, framework));
}

/// A manifest without lines is one line feed.
pub proof fn lemma_manifest_without_lines()
    ensures
        manifest_text(Seq::empty(), None) == "\n"@,
{
    assert(Seq::<char>::empty() + "\n"@ == "\n"@);
}

/// A plan fails exactly where one of the three templates fails to render.
pub proof fn lemma_plan_failure(
    store: Store,
    archetype: Archetype,
    project_name: Seq<char>,
    config: Config,
)
    ensures
        generation_plan(store, archetype, project_name, config).failed <==> {
            let context = generation_context(project_name, config);
            ||| store.renders(GITIGNORE_TEMPLATE@, context) is None
            ||| store.renders(README_TEMPLATE@, context) is None
            ||| store.renders(MAIN_TEMPLATE@, context) is None
        },
{
}

/// A plan fails where one of the three templates is not registered.
pub proof fn lemma_plan_needs_templates(
    store: Store,
    archetype: Archetype,
    project_name: Seq<char>,
    config: Config,
)
    requires
        !store.has(GITIGNORE_TEMPLATE@) || !store.has(README_TEMPLATE@) || !store.has(
            MAIN_TEMPLATE@,
        ),
    ensures
        generation_plan(store, archetype, project_name, config).failed,
{
}

/// The three templates are registered under three different names.
pub proof fn lemma_template_names()
    ensures
        GITIGNORE_TEMPLATE@ != README_TEMPLATE@,
        GITIGNORE_TEMPLATE@ != MAIN_TEMPLATE@,
        README_TEMPLATE@ != MAIN_TEMPLATE@,
{
    reveal_strlit("gitignore");
    reveal_strlit("readme");
    reveal_strlit("main");
    assert(GITIGNORE_TEMPLATE@.len() == 9);
    assert(README_TEMPLATE@.len() == 6);
    assert(MAIN_TEMPLATE@.len() == 4);
}

/// A generator whose entry template could not be read plans no entry file: its plan
/// fails, whatever the shared templates hold.
pub proof fn lemma_plan_without_entry_template(
    set: TemplateSet,
    archetype: Archetype,
    project_name: Seq<char>,
    config: Config,
)
    requires
        set.main is Err,
    ensures
        !generator_store(set).has(MAIN_TEMPLATE@),
        generation_plan(generator_store(set), archetype, project_name, config).failed,
{
    lemma_template_names();
    lemma_plan_needs_templates(generator_store(set), archetype, project_name, config);
}

/// A plan that does not fail makes the directory first, then writes `.gitignore`,
/// `README.md` and `main.py` with what their templates render to, in this order.
/// For every archetype but `Base` one more step follows, which writes the
/// dependencies of the archetype and the test framework, if one is configured, to
/// `requirements.txt`; for `Base` nothing follows.
pub proof fn lemma_plan_steps(
    store: Store,
    archetype: Archetype,
    project_name: Seq<char>,
    config: Config,
)
    requires
        !generation_plan(store, archetype, project_name, config).failed,
    ensures
        ({
            let plan = generation_plan(store, archetype, project_name, config);
            let context = generation_context(project_name, config);
            let gitignore = store.renders(GITIGNORE_TEMPLATE@, context);
            let readme = store.renders(README_TEMPLATE@, context);
            let main = store.renders(MAIN_TEMPLATE@, context);
            &&& gitignore is Some && readme is Some && main is Some
            &&& plan.steps.len() == if archetype == Archetype::Base {
                4int
            } else {
                5int
            }
            &&& plan.steps[0] == StepView::CreateDirectory
            &&& plan.steps[1] == (StepView::WriteFile { name: GITIGNORE_FILE@, content: gitignore->0 })
            &&& plan.steps[2] == (StepView::WriteFile { name: README_FILE@, content: readme->0 })
            &&& plan.steps[3] == (StepView::WriteFile { name: MAIN_FILE@, content: main->0 })
            &&& archetype != Archetype::Base ==> plan.steps[4] == (StepView::WriteFile {
                name: REQUIREMENTS_FILE@,
                content: manifest_text(
                    texts(config.section(archetype).dependencies@),
                    configured_framework(config),
                ),
            })
        }),
{
}

/// The step writes the dependency manifest.
pub open spec fn writes_manifest(step: StepView) -> bool {
    step matches StepView::WriteFile { name, .. } && name == REQUIREMENTS_FILE@
}

/// No step of a plan for `Base` writes a dependency manifest, whether the plan
/// fails or not.
pub proof fn lemma_base_has_no_manifest(store: Store, project_name: Seq<char>, config: Config)
    ensures
        forall|i: int|
            0 <= i < generation_plan(store, Archetype::Base, project_name, config).steps.len()
                ==> !writes_manifest(
                #[trigger] generation_plan(store, Archetype::Base, project_name, config).steps[i],
            ),
{
    lemma_file_names();
}

/// The plan of every archetype but `Base` writes the manifest exactly once, as its
/// last step, where it does not fail; a plan that fails has not come to the
/// manifest.
pub proof fn lemma_manifest_comes_last(
    store: Store,
    archetype: Archetype,
    project_name: Seq<char>,
    config: Config,
)
    requires
        archetype != Archetype::Base,
    ensures
        ({
            let plan = generation_plan(store, archetype, project_name, config);
            forall|i: int|
                0 <= i < plan.steps.len() ==> (writes_manifest(#[trigger] plan.steps[i]) <==> !plan.failed
                    && i == 4)
        }),
{
    lemma_file_names();
}

/// Generating a project a second time into the same directory succeeds and leaves
/// the directory as the first time left it, whatever the directory held before.
pub proof fn lemma_generation_repeats(
    store: Store,
    archetype: Archetype,
    project_name: Seq<char>,
    config: Config,
    directory: Option<TextMap>,
)
    ensures
        ({
            let steps = generation_plan(store, archetype, project_name, config).steps;
            &&& carried_out(steps, directory) is Some
            &&& carried_out(steps, carried_out(steps, directory)) == carried_out(steps, directory)
        }),
{
    let steps = generation_plan(store, archetype, project_name, config).steps;
    assert(steps[0] == StepView::CreateDirectory);
    lemma_carried_out_again(steps, directory);
}

/// The four files of a project bear four different names.
pub proof fn lemma_file_names()
    ensures
        GITIGNORE_FILE@ != README_FILE@,
        GITIGNORE_FILE@ != MAIN_FILE@,
        GITIGNORE_FILE@ != REQUIREMENTS_FILE@,
        README_FILE@ != MAIN_FILE@,
        README_FILE@ != REQUIREMENTS_FILE@,
        MAIN_FILE@ != REQUIREMENTS_FILE@,
{
    reveal_strlit(".gitignore");
    reveal_strlit("README.md");
    reveal_strlit("main.py");
    reveal_strlit("requirements.txt");
    assert(GITIGNORE_FILE@.len() == 10);
    assert(README_FILE@.len() == 9);
    assert(MAIN_FILE@.len() == 7);
    assert(REQUIREMENTS_FILE@.len() == 16);
}

} // verus!
