use crate::error::ProjectError;
use crate::text::{concat2, concat3, texts};
use vstd::prelude::*;

verus! {

/// The kind of project to generate. It decides the dependencies and the shape of
/// the entry file.
#[derive(Clone, Copy, Debug, PartialEq, Eq, Structural)]
pub enum Archetype {
    Web,
    Cli,
    DataScience,
    Base,
}

/// The archetype that a name stands for. Every name but the three that are spelled
/// out stands for `Base`.
pub open spec fn archetype_named(name: Seq<char>) -> Archetype {
    if name == "web"@ {
        Archetype::Web
    } else if name == "cli"@ {
        Archetype::Cli
    } else if name == "data_science"@ {
        Archetype::DataScience
    } else {
        Archetype::Base
    }
}

impl Archetype {
    /// The archetype that `name` stands for; `Base` for a name that is not known.
    pub fn from_name(name: &str) -> (archetype: Archetype)
        ensures
            archetype == archetype_named(name@),
    {
        if name.eq("web") {
            Archetype::Web
        } else if name.eq("cli") {
            Archetype::Cli
        } else if name.eq("data_science") {
            Archetype::DataScience
        } else {
            Archetype::Base
        }
    }

    /// Whether projects of this archetype get a dependency manifest.
    pub open spec fn declares_dependencies(self) -> bool {
        self != Archetype::Base
    }
}

/// What the configuration says of one archetype.
#[derive(Debug)]
pub struct ProjectTypeConfig {
    pub dependencies: Vec<String>,
    pub main_file_template: String,
}

impl ProjectTypeConfig {
    /// The section lists `dependencies`, in that order, and names `main_file_template`.
    pub open spec fn holds(self, dependencies: Seq<Seq<char>>, main_file_template: Seq<char>) -> bool {
        texts(self.dependencies@) == dependencies && self.main_file_template@
            == main_file_template
    }
}

/// The language that projects are generated for.
#[derive(Debug)]
pub struct GeneralConfig {
    pub language: String,
    pub version: String,
}

/// How generated projects are tested.
#[derive(Debug)]
pub struct TestConfig {
    pub framework: String,
}

/// The configuration of a run: the language, one section for each archetype, and
/// the test framework.
#[derive(Debug)]
pub struct Config {
    pub general: GeneralConfig,
    pub web: ProjectTypeConfig,
    pub cli: ProjectTypeConfig,
    pub data_science: ProjectTypeConfig,
    pub base: ProjectTypeConfig,
    pub test: TestConfig,
}

/// What reading and parsing a configuration file gave.
#[derive(Debug)]
pub enum ConfigSource {
    /// The file could not be read, for the reason given.
    Unreadable(String),
    /// The file was read and is no configuration, for the reason given.
    Malformed(String),
    /// The configuration that the file holds.
    Parsed(Config),
}

/// The message for a configuration file that could not be read.
pub open spec fn config_read_failure(path: Seq<char>, reason: Seq<char>) -> Seq<char> {
    "Failed to read config file '"@ + path + "': "@ + reason
}

/// The message for a configuration file that does not parse.
pub open spec fn config_parse_failure(path: Seq<char>, reason: Seq<char>) -> Seq<char> {
    "Failed to parse config file '"@ + path + "': "@ + reason
}

impl Config {
    /// This is the configuration that `new` gives.
    pub open spec fn is_default(self) -> bool {
        &&& self.general.language@ == "python"@
        &&& self.general.version@ == "3.9"@
        &&& self.web.holds(seq!["fastapi"@, "uvicorn"@], "web_main.py"@)
        &&& self.cli.holds(seq!["argparse"@], "cli_main.py"@)
        &&& self.data_science.holds(
            seq!["pandas"@, "numpy"@, "matplotlib"@],
            "data_science_main.py"@,
        )
        &&& self.base.holds(Seq::empty(), "main.py"@)
        &&& self.test.framework@ == "pytest"@
    }

    /// The section of an archetype.
    pub open spec fn section(self, archetype: Archetype) -> ProjectTypeConfig {
        match archetype {
            Archetype::Web => self.web,
            Archetype::Cli => self.cli,
            Archetype::DataScience => self.data_science,
            Archetype::Base => self.base,
        }
    }

    /// The configuration for Python projects that is used where no file is given.
    pub fn new() -> (result: Result<Self, ProjectError>)
        ensures
            result matches Ok(config) && config.is_default(),
    {
        let mut web: Vec<String> = Vec::new();
        web.push("fastapi".to_string());
        web.push("uvicorn".to_string());
        let mut cli: Vec<String> = Vec::new();
        cli.push("argparse".to_string());
        let mut data_science: Vec<String> = Vec::new();
        data_science.push("pandas".to_string());
        data_science.push("numpy".to_string());
        data_science.push("matplotlib".to_string());
        let base: Vec<String> = Vec::new();
        proof {
            assert(texts(web@) == seq!["fastapi"@, "uvicorn"@]);
            assert(texts(cli@) == seq!["argparse"@]);
            assert(texts(data_science@) == seq!["pandas"@, "numpy"@, "matplotlib"@]);
            assert(texts(base@) == Seq::<Seq<char>>::empty());
        }
        Ok(
            Config {
                general: GeneralConfig { language: "python".to_string(), version: "3.9".to_string() },
                web: ProjectTypeConfig {
                    dependencies: web,
                    main_file_template: "web_main.py".to_string(),
                },
                cli: ProjectTypeConfig {
                    dependencies: cli,
                    main_file_template: "cli_main.py".to_string(),
                },
                data_science: ProjectTypeConfig {
                    dependencies: data_science,
                    main_file_template: "data_science_main.py".to_string(),
                },
                base: ProjectTypeConfig {
                    dependencies: base,
                    main_file_template: "main.py".to_string(),
                },
                test: TestConfig { framework: "pytest".to_string() },
            },
        )
    }

    /// The configuration of the file at `path`, given what reading and parsing that
    /// file gave. A file that could not be read or does not parse is a configuration
    /// error that names the path and the reason.
    pub fn load(path: &str, source: ConfigSource) -> (result: Result<Self, ProjectError>)
        ensures
            match source {
                ConfigSource::Unreadable(reason) => result matches Err(error) && error.is_config(
                    config_read_failure(path@, reason@),
                ),
                ConfigSource::Malformed(reason) => result matches Err(error) && error.is_config(
                    config_parse_failure(path@, reason@),
                ),
                ConfigSource::Parsed(config) => result matches Ok(loaded) && loaded == config,
            },
    {
        match source {
            ConfigSource::Unreadable(reason) => {
                let start = concat3("Failed to read config file '", path, "': ");
                Err(ProjectError::Config(concat2(start.as_str(), reason.as_str())))
            },
            ConfigSource::Malformed(reason) => {
                let start = concat3("Failed to parse config file '", path, "': ");
                Err(ProjectError::Config(concat2(start.as_str(), reason.as_str())))
            },
            ConfigSource::Parsed(config) => Ok(config),
        }
    }

    /// The section of an archetype.
    pub fn section_of(&self, archetype: Archetype) -> (section: &ProjectTypeConfig)
        ensures
            *section == self.section(archetype),
    {
        match archetype {
            Archetype::Web => &self.web,
            Archetype::Cli => &self.cli,
            Archetype::DataScience => &self.data_science,
            Archetype::Base => &self.base,
        }
    }

    /// The section of the archetype that `project_type` names: the section of `web`,
    /// `cli` or `data_science` for that name, and the `base` section for every other
    /// text.
    pub fn get_project_type_config(&self, project_type: &str) -> (section: &ProjectTypeConfig)
        ensures
            *section == self.section(archetype_named(project_type@)),
    {
        self.section_of(Archetype::from_name(project_type))
    }

    /// Accepts a configuration that names its language.
    pub fn validate(&self) -> (result: Result<(), ProjectError>)
        ensures
            self.general.language@.len() > 0 ==> result is Ok,
            self.general.language@.len() == 0 ==> (result matches Err(error) && error.is_config(
                "Language not specified"@,
            )),
    {
        if self.general.language.as_str().is_empty() {
            return Err(ProjectError::Config("Language not specified".to_string()));
        }
        Ok(())
    }
}

/// The three archetypes with a section of their own are found by their names; the
/// empty text and the name `base` stand for `Base`, as every other text does.
pub proof fn lemma_archetype_names()
    ensures
        archetype_named("web"@) == Archetype::Web,
        archetype_named("cli"@) == Archetype::Cli,
        archetype_named("data_science"@) == Archetype::DataScience,
        archetype_named("base"@) == Archetype::Base,
        archetype_named(""@) == Archetype::Base,
        archetype_named(Seq::empty()) == Archetype::Base,
        forall|name: Seq<char>|
            name != "web"@ && name != "cli"@ && name != "data_science"@ ==> #[trigger] archetype_named(
                name,
            ) == Archetype::Base,
{
    reveal_strlit("web");
    reveal_strlit("cli");
    reveal_strlit("data_science");
    reveal_strlit("base");
    reveal_strlit("");
    assert(""@.len() == 0);
    assert("web"@.len() == 3);
    assert("cli"@.len() == 3);
    assert("data_science"@.len() == 12);
    assert("base"@.len() == 4);
    assert("cli"@[0] != "web"@[0]);
}

} // verus!
