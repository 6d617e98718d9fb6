use crate::error::ProjectError;
use crate::templating::tags::{has_partial_tag, holds_partial};
use crate::text::{concat2, concat3, TextMap};
use crate::utils::template_helpers::{distinct_keys, entry_map, Context, Entry};
use vstd::prelude::*;

verus! {

/// Declares `handlebars::Handlebars`, the registry of compiled templates, to the
/// verifier as an opaque type. What a registry holds is told by `registry_templates`,
/// `registry_strict` and `registry_escapes`.
#[verifier::external_type_specification]
#[verifier::external_body]
pub struct ExHandlebars<'reg>(handlebars::Handlebars<'reg>);

/// Declares `handlebars::TemplateError` to the verifier as an opaque type: the
/// library only asks whether there is one.
#[verifier::external_type_specification]
#[verifier::external_body]
pub struct ExTemplateError(handlebars::TemplateError);

/// The templates that a registry holds: each registered name with the source text
/// that was last registered under it.
pub uninterp spec fn registry_templates(registry: handlebars::Handlebars<'static>) -> TextMap;

/// Whether a registry is in strict mode, in which a variable that the data lacks
/// is an error and not an empty text.
pub uninterp spec fn registry_strict(registry: handlebars::Handlebars<'static>) -> bool;

/// Whether a registry escapes the values it puts into a text, as is done for HTML.
pub uninterp spec fn registry_escapes(registry: handlebars::Handlebars<'static>) -> bool;

/// Whether `Handlebars::register_template_string` accepts a source text, which it
/// does where the text parses as a template.
pub uninterp spec fn template_parses(source: Seq<char>) -> bool;

/// What `Handlebars::render` gives for the template registered as `name` and the
/// variables `data`, in a registry that holds `templates` and is in the modes
/// given: the text, or `None` where rendering fails.
pub uninterp spec fn rendered(
    templates: TextMap,
    strict: bool,
    escapes: bool,
    name: Seq<char>,
    data: TextMap,
) -> Option<Seq<char>>;

/// What `Handlebars::render_template` gives for the source text `source` and the
/// variables `data`, in a registry that holds `templates` and is in the modes
/// given: the text, or `None` where rendering fails.
pub uninterp spec fn rendered_source(
    templates: TextMap,
    strict: bool,
    escapes: bool,
    source: Seq<char>,
    data: TextMap,
) -> Option<Seq<char>>;

/// None of the sources holds a partial tag.
pub open spec fn all_plain(templates: TextMap) -> bool {
    forall|name: Seq<char>| #[trigger]
        templates.dom().contains(name) ==> !holds_partial(templates[name])
}

/// Calls `Handlebars::new`: a registry with the built-in helpers and no template,
/// which is not strict and escapes values for HTML.
#[verifier::external_body]
fn registry_new() -> (registry: handlebars::Handlebars<'static>)
    ensures
        registry_templates(registry) == TextMap::empty(),
        !registry_strict(registry),
        registry_escapes(registry),
{
    handlebars::Handlebars::new()
}

/// Calls `Handlebars::set_strict_mode`, which sets that mode and nothing else.
#[verifier::external_body]
fn registry_set_strict(registry: &mut handlebars::Handlebars<'static>, enabled: bool)
    ensures
        registry_strict(*final(registry)) == enabled,
        registry_escapes(*final(registry)) == registry_escapes(*old(registry)),
        registry_templates(*final(registry)) == registry_templates(*old(registry)),
{
    registry.set_strict_mode(enabled)
}

/// Calls `Handlebars::register_escape_fn` with `handlebars::no_escape`, the function
/// that hands a value back as it is: the registry then escapes nothing, and is
/// otherwise as before.
#[verifier::external_body]
fn registry_keep_values(registry: &mut handlebars::Handlebars<'static>)
    ensures
        !registry_escapes(*final(registry)),
        registry_strict(*final(registry)) == registry_strict(*old(registry)),
        registry_templates(*final(registry)) == registry_templates(*old(registry)),
{
    registry.register_escape_fn(handlebars::no_escape)
}

/// Calls `Handlebars::unregister_template`, which takes the template of that name
/// out of the registry, if there is one, and changes nothing else.
#[verifier::external_body]
fn registry_unregister(registry: &mut handlebars::Handlebars<'static>, name: &str)
    ensures
        registry_templates(*final(registry)) == registry_templates(*old(registry)).remove(name@),
        registry_strict(*final(registry)) == registry_strict(*old(registry)),
        registry_escapes(*final(registry)) == registry_escapes(*old(registry)),
{
    registry.unregister_template(name)
}

/// Calls `Handlebars::register_template_string`. It parses `source` first: where that
/// fails it returns the error and the registry stays as it was; else the template
/// stands under `name`, in place of an earlier one of that name. Whether a source
/// parses does not depend on the name or on the registry.
#[verifier::external_body]
fn registry_register(
    registry: &mut handlebars::Handlebars<'static>,
    name: &str,
    source: &str,
) -> (outcome: Result<(), handlebars::TemplateError>)
    ensures
        outcome is Ok <==> template_parses(source@),
        outcome is Ok ==> registry_templates(*final(registry)) == registry_templates(
            *old(registry),
        ).insert(name@, source@),
        outcome is Err ==> registry_templates(*final(registry)) == registry_templates(
            *old(registry),
        ),
        registry_strict(*final(registry)) == registry_strict(*old(registry)),
        registry_escapes(*final(registry)) == registry_escapes(*old(registry)),
{
    registry.register_template_string(name, source)
}

/// Calls `Handlebars::render` with the entries as a JSON object of strings. A name
/// that is not registered is an error. Else the outcome depends on the registry's
/// templates and mode, the name and the variables alone. handlebars follows a
/// partial tag into the template it names, to no set depth, and templates that
/// include each other would never end: so the registry may hold no partial tag.
/// Without one, rendering a template reaches no other template.
#[verifier::external_body]
fn registry_render(
    registry: &handlebars::Handlebars<'static>,
    name: &str,
    entries: &Vec<Entry>,
) -> (outcome: Result<String, handlebars::RenderError>)
    requires
        distinct_keys(entries@),
        all_plain(registry_templates(*registry)),
    ensures
        !registry_templates(*registry).dom().contains(name@) ==> outcome is Err,
        match rendered(
            registry_templates(*registry),
            registry_strict(*registry),
            registry_escapes(*registry),
            name@,
            entry_map(entries@),
        ) {
            Some(text) => outcome matches Ok(out) && out@ == text,
            None => outcome is Err,
        },
{
    let mut object = serde_json::Map::new();
    for entry in entries.iter() {
        object.insert(entry.key.clone(), serde_json::Value::String(entry.value.clone()));
    }
    registry.render(name, &object)
}

/// Calls `Handlebars::render_template` with the entries as a JSON object of strings.
/// It parses `source` first, as registering does: a source that does not parse is
/// an error. Else the outcome depends on the registry's templates and mode, the
/// source and the variables alone. As for `registry_render`, neither the source nor
/// the registry may hold a partial tag.
#[verifier::external_body]
fn registry_render_source(
    registry: &handlebars::Handlebars<'static>,
    source: &str,
    entries: &Vec<Entry>,
) -> (outcome: Result<String, handlebars::RenderError>)
    requires
        distinct_keys(entries@),
        all_plain(registry_templates(*registry)),
        !holds_partial(source@),
    ensures
        !template_parses(source@) ==> outcome is Err,
        match rendered_source(
            registry_templates(*registry),
            registry_strict(*registry),
            registry_escapes(*registry),
            source@,
            entry_map(entries@),
        ) {
            Some(text) => outcome matches Ok(out) && out@ == text,
            None => outcome is Err,
        },
{
    let mut object = serde_json::Map::new();
    for entry in entries.iter() {
        object.insert(entry.key.clone(), serde_json::Value::String(entry.value.clone()));
    }
    registry.render_template(source, &object)
}

/// Calls `RenderError::from` on `RenderErrorReason::Other`, which makes a rendering
/// error that shows itself as the words given.
#[verifier::external_body]
fn render_error(words: &str) -> (error: handlebars::RenderError) {
    handlebars::RenderError::from(handlebars::RenderErrorReason::Other(words.to_string()))
}

/// What a rendering comes to for the caller: the text, or a template error.
pub fn rendering_outcome(outcome: Result<String, handlebars::RenderError>) -> (result: Result<
    String,
    ProjectError,
>)
    ensures
        match outcome {
            Ok(text) => result == Ok::<String, ProjectError>(text),
            Err(error) => result == Err::<String, ProjectError>(ProjectError::Template(error)),
        },
{
    match outcome {
        Ok(text) => Ok(text),
        Err(error) => Err(ProjectError::Template(error)),
    }
}

/// The error for a template file at `path` that could not be read for the reason
/// given: a configuration error that names both.
pub open spec fn source_failure(error: ProjectError, path: Seq<char>, reason: Seq<char>) -> bool {
    error.is_config(template_read_failure(path, reason))
}

/// The message for a template file that could not be read.
pub open spec fn template_read_failure(path: Seq<char>, reason: Seq<char>) -> Seq<char> {
    "Failed to read template '"@ + path + "': "@ + reason
}

/// The path of the file `file` in the directory `dir`.
pub open spec fn path_in(dir: Seq<char>, file: Seq<char>) -> Seq<char> {
    dir + "/"@ + file
}

/// The path of the file `file` in the directory `dir`.
pub fn join_path(dir: &str, file: &str) -> (path: String)
    ensures
        path@ == path_in(dir@, file@),
{
    concat3(dir, "/", file)
}

/// A template file as it was found: the name its template is registered under, the
/// file's name in its directory, and what reading it gave (the text, or the reason
/// for which it could not be read).
#[derive(Debug)]
pub struct TemplateFile {
    pub name: String,
    pub filename: String,
    pub contents: Result<String, String>,
}

/// A store after the files were registered in order, up to the first that could not
/// be read.
pub open spec fn loaded(store: Store, files: Seq<TemplateFile>) -> Store
    decreases files.len(),
{
    if files.len() == 0 || files[0].contents is Err {
        store
    } else {
        loaded(store.with(files[0].name@, files[0].contents->Ok_0@), files.skip(1))
    }
}

/// The place of the first file that could not be read; the number of files where
/// all could.
pub open spec fn first_failure(files: Seq<TemplateFile>) -> int
    decreases files.len(),
{
    if files.len() == 0 || files[0].contents is Err {
        0
    } else {
        1 + first_failure(files.skip(1))
    }
}

/// The first failure lies within the list or just behind it; every file before it
/// could be read, and the file at it, if there is one, could not.
pub proof fn lemma_first_failure(files: Seq<TemplateFile>)
    ensures
        0 <= first_failure(files) <= files.len(),
        forall|i: int| 0 <= i < first_failure(files) ==> (#[trigger] files[i]).contents is Ok,
        first_failure(files) < files.len() ==> files[first_failure(files)].contents is Err,
    decreases files.len(),
{
    if files.len() > 0 && files[0].contents is Ok {
        let rest = files.skip(1);
        lemma_first_failure(rest);
        assert forall|i: int| 0 <= i < first_failure(files) implies (#[trigger] files[i]).contents is Ok by {
            if i > 0 {
                assert(files[i] == rest[i - 1]);
            }
        }
        if first_failure(files) < files.len() {
            assert(files[first_failure(files)] == rest[first_failure(rest)]);
        }
    }
}

/// Two files that could both be read leave both templates in the store.
pub(crate) proof fn lemma_loaded_pair(store: Store, files: Seq<TemplateFile>)
    requires
        files.len() == 2,
    ensures
        files[0].contents is Ok && files[1].contents is Ok ==> loaded(store, files) == store.with(
            files[0].name@,
            files[0].contents->Ok_0@,
        ).with(files[1].name@, files[1].contents->Ok_0@),
        first_failure(files) == if files[0].contents is Err {
            0int
        } else if files[1].contents is Err {
            1int
        } else {
            2int
        },
{
    let rest = files.skip(1);
    assert(rest[0] == files[1]);
    assert(rest.skip(1).len() == 0);
    if files[0].contents is Ok {
        let first = store.with(files[0].name@, files[0].contents->Ok_0@);
        assert(loaded(store, files) == loaded(first, rest));
        if files[1].contents is Ok {
            assert(loaded(first, rest) == loaded(
                first.with(files[1].name@, files[1].contents->Ok_0@),
                rest.skip(1),
            ));
        }
        assert(first_failure(rest) == if files[1].contents is Ok {
            1 + first_failure(rest.skip(1))
        } else {
            0
        });
    }
}

/// A source can be rendered: it parses as a template and holds no partial tag.
pub open spec fn renderable(source: Seq<char>) -> bool {
    template_parses(source) && !holds_partial(source)
}

/// A template store as contracts speak of it. Every registered name stands in one
/// of two mappings with its source text: in `compiled` where the source can be
/// rendered, in `rejected` where it cannot.
pub struct Store {
    pub compiled: TextMap,
    pub rejected: TextMap,
    /// Whether a variable that the context lacks is an error.
    pub strict: bool,
    /// Whether values are escaped for HTML.
    pub escapes: bool,
}

impl Store {
    /// The store that `TemplatingEngine::new` gives: no template; a missing variable
    /// is an error; values are put in as they are.
    pub open spec fn empty() -> Store {
        Store {
            compiled: TextMap::empty(),
            rejected: TextMap::empty(),
            strict: true,
            escapes: false,
        }
    }

    /// Whether a template is registered as `name`.
    pub open spec fn has(self, name: Seq<char>) -> bool {
        self.compiled.dom().contains(name) || self.rejected.dom().contains(name)
    }

    /// The source text that is registered as `name`.
    pub open spec fn source(self, name: Seq<char>) -> Seq<char>
        recommends
            self.has(name),
    {
        if self.rejected.dom().contains(name) {
            self.rejected[name]
        } else {
            self.compiled[name]
        }
    }

    /// The store with `source` registered as `name`, in place of an earlier template
    /// of that name.
    pub open spec fn with(self, name: Seq<char>, source: Seq<char>) -> Store {
        if renderable(source) {
            Store {
                compiled: self.compiled.insert(name, source),
                rejected: self.rejected.remove(name),
                ..self
            }
        } else {
            Store {
                compiled: self.compiled.remove(name),
                rejected: self.rejected.insert(name, source),
                ..self
            }
        }
    }

    /// What rendering the template `name` gives for the variables `data`: the text,
    /// or `None` where rendering fails, as it does for a name that is not registered
    /// and for a source that cannot be rendered.
    pub open spec fn renders(self, name: Seq<char>, data: TextMap) -> Option<Seq<char>> {
        if !self.has(name) || self.rejected.dom().contains(name) {
            None
        } else {
            rendered(self.compiled, self.strict, self.escapes, name, data)
        }
    }

    /// What rendering the source text `source` gives for the variables `data`: the
    /// text, or `None` where rendering fails, as it does for a source that holds a
    /// partial tag.
    pub open spec fn renders_source(self, source: Seq<char>, data: TextMap) -> Option<Seq<char>> {
        if holds_partial(source) {
            None
        } else {
            rendered_source(self.compiled, self.strict, self.escapes, source, data)
        }
    }
}

/// A store with one more template holds that template under its name and every
/// other name as before.
pub proof fn lemma_store_with(store: Store, name: Seq<char>, source: Seq<char>, other: Seq<char>)
    ensures
        store.with(name, source).has(name),
        store.with(name, source).source(name) == source,
        other != name ==> store.with(name, source).has(other) == store.has(other),
        other != name && store.has(other) ==> store.with(name, source).source(other)
            == store.source(other),
{
}

/// The registry of the templates that can be rendered. It is made when the first
/// of them is registered, and none of its templates holds a partial tag.
struct Compiled {
    handlebars: Option<handlebars::Handlebars<'static>>,
}

/// A registry without templates in which a missing variable is an error and values
/// are put in as they are.
fn fresh_registry() -> (registry: handlebars::Handlebars<'static>)
    ensures
        registry_templates(registry) == TextMap::empty(),
        registry_strict(registry),
        !registry_escapes(registry),
{
    let mut registry = registry_new();
    registry_set_strict(&mut registry, true);
    registry_keep_values(&mut registry);
    registry
}

impl Compiled {
    #[verifier::type_invariant]
    spec fn plain(&self) -> bool {
        self.handlebars matches Some(registry) ==> all_plain(registry_templates(registry))
    }

    /// The templates of the registry, each name with its source text.
    closed spec fn templates(&self) -> TextMap {
        match self.handlebars {
            Some(registry) => registry_templates(registry),
            None => TextMap::empty(),
        }
    }

    /// Whether a variable that the context lacks is an error.
    closed spec fn strict(&self) -> bool {
        match self.handlebars {
            Some(registry) => registry_strict(registry),
            None => true,
        }
    }

    /// Whether values are escaped for HTML.
    closed spec fn escapes(&self) -> bool {
        match self.handlebars {
            Some(registry) => registry_escapes(registry),
            None => false,
        }
    }

    /// No template.
    fn new() -> (compiled: Self)
        ensures
            compiled.templates() == TextMap::empty(),
            compiled.strict(),
            !compiled.escapes(),
    {
        Compiled { handlebars: None }
    }

    /// Registers `source`, which holds no partial tag, under `name`, and says
    /// whether it parses. A source that does not parse changes nothing.
    fn register(&mut self, name: &str, source: &str) -> (parses: bool)
        requires
            !holds_partial(source@),
        ensures
            parses == template_parses(source@),
            final(self).templates() == if parses {
                old(self).templates().insert(name@, source@)
            } else {
                old(self).templates()
            },
            final(self).strict() == old(self).strict(),
            final(self).escapes() == old(self).escapes(),
    {
        proof {
            use_type_invariant(&*self);
        }
        let mut taken: Option<handlebars::Handlebars<'static>> = None;
        core::mem::swap(&mut self.handlebars, &mut taken);
        let mut registry = match taken {
            Some(registry) => registry,
            None => fresh_registry(),
        };
        let parses = match registry_register(&mut registry, name, source) {
            Ok(()) => true,
            Err(_) => false,
        };
        self.handlebars = Some(registry);
        parses
    }

    /// Takes the template of that name out, if there is one.
    fn unregister(&mut self, name: &str)
        ensures
            final(self).templates() == old(self).templates().remove(name@),
            final(self).strict() == old(self).strict(),
            final(self).escapes() == old(self).escapes(),
    {
        proof {
            use_type_invariant(&*self);
        }
        let mut taken: Option<handlebars::Handlebars<'static>> = None;
        core::mem::swap(&mut self.handlebars, &mut taken);
        match taken {
            Some(registry) => {
                let mut registry = registry;
                registry_unregister(&mut registry, name);
                self.handlebars = Some(registry);
            },
            None => {
                assert(TextMap::empty().remove(name@) == TextMap::empty());
            },
        }
    }

    /// Renders the template registered as `name`. A name that is not registered is
    /// an error.
    fn render(&self, name: &str, entries: &Vec<Entry>) -> (outcome: Result<
        String,
        handlebars::RenderError,
    >)
        requires
            distinct_keys(entries@),
        ensures
            !self.templates().dom().contains(name@) ==> outcome is Err,
            self.templates().dom().contains(name@) ==> match rendered(
                self.templates(),
                self.strict(),
                self.escapes(),
                name@,
                entry_map(entries@),
            ) {
                Some(text) => outcome matches Ok(out) && out@ == text,
                None => outcome is Err,
            },
    {
        proof {
            use_type_invariant(self);
        }
        match &self.handlebars {
            Some(registry) => registry_render(registry, name, entries),
            None => Err(render_error(concat2("Template not found ", name).as_str())),
        }
    }

    /// Renders `source`, which holds no partial tag, without registering it. A
    /// source that does not parse is an error.
    fn render_source(&self, source: &str, entries: &Vec<Entry>) -> (outcome: Result<
        String,
        handlebars::RenderError,
    >)
        requires
            distinct_keys(entries@),
            !holds_partial(source@),
        ensures
            !template_parses(source@) ==> outcome is Err,
            match rendered_source(
                self.templates(),
                self.strict(),
                self.escapes(),
                source@,
                entry_map(entries@),
            ) {
                Some(text) => outcome matches Ok(out) && out@ == text,
                None => outcome is Err,
            },
    {
        proof {
            use_type_invariant(self);
        }
        match &self.handlebars {
            Some(registry) => registry_render_source(registry, source, entries),
            None => {
                let registry = fresh_registry();
                registry_render_source(&registry, source, entries)
            },
        }
    }
}

/// The sources that were registered although they cannot be rendered, each under
/// its name. They are kept so that rendering one of them reports what is wrong
/// with it.
struct Rejected {
    sources: Context,
}

impl View for Rejected {
    type V = TextMap;

    closed spec fn view(&self) -> TextMap {
        self.sources@
    }
}

impl Rejected {
    #[verifier::type_invariant]
    spec fn none_renders(&self) -> bool {
        forall|name: Seq<char>| #[trigger]
            self.sources@.dom().contains(name) ==> !renderable(self.sources@[name])
    }

    /// No source.
    fn new() -> (rejected: Self)
        ensures
            rejected@ == TextMap::empty(),
    {
        Rejected { sources: Context::new() }
    }

    /// Keeps `source`, which cannot be rendered, under `name`.
    fn keep(&mut self, name: &str, source: &str)
        requires
            !renderable(source@),
        ensures
            final(self)@ == old(self)@.insert(name@, source@),
    {
        proof {
            use_type_invariant(&*self);
        }
        let mut sources = Context::new();
        core::mem::swap(&mut self.sources, &mut sources);
        sources.insert(name, source);
        self.sources = sources;
    }

    /// Lets go of what is kept under `name`.
    fn forget(&mut self, name: &str)
        ensures
            final(self)@ == old(self)@.remove(name@),
    {
        proof {
            use_type_invariant(&*self);
        }
        let mut sources = Context::new();
        core::mem::swap(&mut self.sources, &mut sources);
        sources.remove(name);
        self.sources = sources;
    }

    /// The source that is kept under `name`, if there is one.
    fn find(&self, name: &str) -> (found: Option<&str>)
        ensures
            match found {
                Some(source) => self@.dom().contains(name@) && self@[name@] == source@
                    && !renderable(source@),
                None => !self@.dom().contains(name@),
            },
    {
        proof {
            use_type_invariant(self);
        }
        self.sources.get(name)
    }
}

/// The error for a template that holds a partial tag.
fn partial_error(name: &str) -> (error: ProjectError)
    ensures
        error is Template,
{
    let words = concat3(
        "Template '",
        name,
        "' holds a partial tag, and partials are not supported",
    );
    ProjectError::Template(render_error(words.as_str()))
}

/// A store of named templates, and the one place where they are rendered. A body
/// is stored as it is given; what is wrong with it shows when it is rendered. A
/// placeholder is a plain reference to a variable: it is replaced by the value as
/// it stands, and a variable that the context lacks is an error. A template cannot
/// include another: a body with a partial tag fails when it is rendered.
pub struct TemplatingEngine {
    compiled: Compiled,
    rejected: Rejected,
}

impl View for TemplatingEngine {
    type V = Store;

    closed spec fn view(&self) -> Store {
        Store {
            compiled: self.compiled.templates(),
            rejected: self.rejected@,
            strict: self.compiled.strict(),
            escapes: self.compiled.escapes(),
        }
    }
}

impl Default for TemplatingEngine {
    fn default() -> (engine: Self)
        ensures
            engine@ == Store::empty(),
    {
        Self::new()
    }
}

impl TemplatingEngine {
    /// An empty store.
    pub fn new() -> (engine: Self)
        ensures
            engine@ == Store::empty(),
    {
        TemplatingEngine { compiled: Compiled::new(), rejected: Rejected::new() }
    }

    /// Renders the template registered as `template_name` with the variables of
    /// `data`. A name that was never registered is a template error, and so is a
    /// body that does not parse and every other failure.
    pub fn render(&self, template_name: &str, data: &Context) -> (result: Result<
        String,
        ProjectError,
    >)
        ensures
            !self@.has(template_name@) ==> (result matches Err(error) && error is Template),
            match self@.renders(template_name@, data@) {
                Some(text) => result matches Ok(out) && out@ == text,
                None => result matches Err(error) && error is Template,
            },
    {
        match self.rejected.find(template_name) {
            Some(source) => {
                if has_partial_tag(source) {
                    Err(partial_error(template_name))
                } else {
                    rendering_outcome(self.compiled.render_source(source, data.entries()))
                }
            },
            None => rendering_outcome(self.compiled.render(template_name, data.entries())),
        }
    }

    /// Renders the source text `template` with the variables of `data`, without
    /// registering it. A source that holds a partial tag is a template error.
    pub fn render_string(&self, template: &str, data: &Context) -> (result: Result<
        String,
        ProjectError,
    >)
        ensures
            match self@.renders_source(template@, data@) {
                Some(text) => result matches Ok(out) && out@ == text,
                None => result matches Err(error) && error is Template,
            },
    {
        if has_partial_tag(template) {
            Err(partial_error("<inline>"))
        } else {
            rendering_outcome(self.compiled.render_source(template, data.entries()))
        }
    }

    /// Registers `template` under `name`, in place of an earlier template of that
    /// name. Every body is taken: one that does not parse, or holds a partial tag,
    /// fails when it is rendered.
    pub fn register_template(&mut self, name: &str, template: &str) -> (result: Result<
        (),
        ProjectError,
    >)
        ensures
            result is Ok,
            final(self)@ == old(self)@.with(name@, template@),
    {
        if !has_partial_tag(template) && self.compiled.register(name, template) {
            self.rejected.forget(name);
        } else {
            self.compiled.unregister(name);
            self.rejected.keep(name, template);
        }
        Ok(())
    }

    /// Registers under `name` the template that the file at `path` holds, given what
    /// reading that file gave. A file that could not be read is a configuration error
    /// that names the path and the reason.
    pub fn register_template_file(
        &mut self,
        name: &str,
        path: &str,
        contents: &Result<String, String>,
    ) -> (result: Result<(), ProjectError>)
        ensures
            match contents {
                Ok(text) => result is Ok && final(self)@ == old(self)@.with(name@, text@),
                Err(reason) => result matches Err(error) && source_failure(error, path@, reason@)
                    && final(self)@ == old(self)@,
            },
    {
        match contents {
            Ok(text) => self.register_template(name, text.as_str()),
            Err(reason) => {
                let start = concat3("Failed to read template '", path, "': ");
                Err(ProjectError::Config(concat2(start.as_str(), reason.as_str())))
            },
        }
    }

    /// Registers the files of the directory `dir` in order, each under its name, and
    /// stops at the first that could not be read: the files before it stay
    /// registered.
    pub fn load_templates_from_dir(&mut self, dir: &str, files: &Vec<TemplateFile>) -> (result:
        Result<(), ProjectError>)
        ensures
            final(self)@ == loaded(old(self)@, files@),
            result is Ok <==> first_failure(files@) == files@.len(),
            result matches Err(error) ==> source_failure(
                error,
                path_in(dir@, files@[first_failure(files@)].filename@),
                files@[first_failure(files@)].contents->Err_0@,
            ),
    {
        let mut i: usize = 0;
        proof {
            assert(files@.skip(0) == files@);
        }
        while i < files.len()
            invariant
                i <= files.len(),
                loaded(old(self)@, files@) == loaded(self@, files@.skip(i as int)),
                first_failure(files@) == i + first_failure(files@.skip(i as int)),
            decreases files.len() - i,
        {
            let file = &files[i];
            let path = join_path(dir, file.filename.as_str());
            proof {
                assert(files@.skip(i as int)[0] == files@[i as int]);
                assert(files@.skip(i as int).skip(1) == files@.skip(i as int + 1));
            }
            match self.register_template_file(file.name.as_str(), path.as_str(), &file.contents) {
                Ok(()) => {},
                Err(error) => {
                    return Err(error);
                },
            }
            i = i + 1;
        }
        Ok(())
    }
}

} // verus!
