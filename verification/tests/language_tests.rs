use poq::config::Config;
use poq::error::ProjectError;
use poq::languages::{get_language, language_named, supported_languages, Python};
use poq::model::generator::Step;
use poq::model::language::{after_command, is_due, Language, Ran, TemplateSet, Word};
use poq::model::project::Project;
use poq::model::RuntimeContext;
use std::path::PathBuf;

fn templates() -> TemplateSet {
    TemplateSet {
        gitignore: Ok("venv/\n".to_string()),
        readme: Ok("# {{project_name}}\n".to_string()),
        main: Ok("# {{language}}\n".to_string()),
    }
}

fn names(plan: &poq::model::Plan) -> Vec<String> {
    plan.steps
        .iter()
        .map(|step| match step {
            Step::CreateDirectory => "<directory>".to_string(),
            Step::WriteFile { name, .. } => name.clone(),
        })
        .collect()
}

fn text(word: &Word) -> &str {
    match word {
        Word::Text(text) => text.as_str(),
        Word::InProject(_) => panic!("a text was expected"),
    }
}

fn in_project(word: &Word) -> Vec<&str> {
    match word {
        Word::InProject(names) => names.iter().map(|name| name.as_str()).collect(),
        Word::Text(_) => panic!("a path in the project was expected"),
    }
}

#[test]
fn only_python_is_supported() {
    assert_eq!(supported_languages(), vec!["python"]);
}

#[test]
fn languages_are_found_by_name_in_any_case() {
    for name in ["python", "py", "PYTHON", "Py", "pY"] {
        assert!(get_language(name).is_some());
    }
    for name in ["", "python ", "pyth", "rust", "golang", "PYTHON3"] {
        assert!(get_language(name).is_none());
    }
}

#[test]
fn a_name_in_lowercase_is_matched_exactly() {
    assert!(language_named("python").is_some());
    assert!(language_named("py").is_some());
    assert!(language_named("Python").is_none());
    assert!(language_named("PY").is_none());
    assert!(language_named("").is_none());
}

#[test]
fn shared_templates_lie_in_the_base_directory() {
    for project_type in ["web", "cli", "data_science", "base", "", "other"] {
        let paths = Python.template_paths(project_type);
        assert_eq!(paths.gitignore, "templates/python/base/gitignore.template");
        assert_eq!(paths.readme, "templates/python/base/readme.template");
    }
}

#[test]
fn entry_templates_lie_in_the_directory_of_the_archetype() {
    assert_eq!(
        Python.template_paths("web").main,
        "templates/python/web/fastapi/main.py.template"
    );
    assert_eq!(Python.template_paths("cli").main, "templates/python/cli/main.py.template");
    assert_eq!(
        Python.template_paths("data_science").main,
        "templates/python/data_science/main.py.template"
    );
    assert_eq!(Python.template_paths("base").main, "templates/python/base/main.py.template");
    assert_eq!(Python.template_paths("").main, "templates/python/base/main.py.template");
    assert_eq!(Python.template_paths("mobile").main, "templates/python/base/main.py.template");
}

#[test]
fn the_generator_follows_the_project_type() {
    let config = Config::new().unwrap();
    let project = Project::new("demo", PathBuf::from("demo"));
    let with_manifest =
        vec!["<directory>", ".gitignore", "README.md", "main.py", "requirements.txt"];
    let without_manifest = vec!["<directory>", ".gitignore", "README.md", "main.py"];
    for project_type in ["web", "cli", "data_science"] {
        let generator = match Python.get_generator(&config, project_type, templates()) {
            Ok(generator) => generator,
            Err(error) => panic!("unexpected error: {:?}", error),
        };
        let plan = generator.generate(&project, &config);
        assert!(plan.failure.is_none());
        assert_eq!(names(&plan), with_manifest);
    }
    for project_type in ["base", "", "unknown", "CLI"] {
        let generator = match Python.get_generator(&config, project_type, templates()) {
            Ok(generator) => generator,
            Err(error) => panic!("unexpected error: {:?}", error),
        };
        let plan = generator.generate(&project, &config);
        assert!(plan.failure.is_none());
        assert_eq!(names(&plan), without_manifest);
    }
}

#[test]
fn the_manifest_of_a_generator_is_that_of_its_project_type() {
    let config = Config::new().unwrap();
    let project = Project::new("demo", PathBuf::from("demo"));
    let expected = [
        ("web", "fastapi\nuvicorn\npytest\n"),
        ("cli", "argparse\npytest\n"),
        ("data_science", "pandas\nnumpy\nmatplotlib\npytest\n"),
    ];
    for (project_type, manifest) in expected {
        let language = get_language("python").unwrap();
        let generator = match language.get_generator(&config, project_type, templates()) {
            Ok(generator) => generator,
            Err(error) => panic!("unexpected error: {:?}", error),
        };
        let plan = generator.generate(&project, &config);
        match &plan.steps[4] {
            Step::WriteFile { name, content } => {
                assert_eq!(name, "requirements.txt");
                assert_eq!(content, manifest);
            }
            Step::CreateDirectory => panic!("the last step writes the manifest"),
        }
    }
}

#[test]
fn a_generator_is_not_built_without_the_shared_templates() {
    let config = Config::new().unwrap();
    let set = TemplateSet { readme: Err("gone".to_string()), ..templates() };
    match Python.get_generator(&config, "cli", set) {
        Err(ProjectError::Config(message)) => assert_eq!(
            message,
            "Failed to read template 'templates/python/base/readme.template': gone"
        ),
        Err(other) => panic!("unexpected error: {:?}", other),
        Ok(_) => panic!("the generator was built without readme template"),
    }
}

#[test]
fn the_environment_is_made_before_dependencies_are_installed() {
    let config = Config::new().unwrap();
    let project = Project::new("demo", PathBuf::from("demo"));
    let commands = Python.setup_environment(&project, &config);
    assert_eq!(commands.len(), 2);

    let create = &commands[0];
    assert_eq!(text(&create.program), "python");
    assert_eq!(create.arguments.len(), 3);
    assert_eq!(text(&create.arguments[0]), "-m");
    assert_eq!(text(&create.arguments[1]), "venv");
    assert_eq!(in_project(&create.arguments[2]), vec!["venv"]);
    assert_eq!(create.needs, None);
    assert_eq!(create.failure, "Failed to create virtual environment");

    let install = &commands[1];
    assert_eq!(in_project(&install.program), vec!["venv", "bin", "pip"]);
    assert_eq!(install.arguments.len(), 3);
    assert_eq!(text(&install.arguments[0]), "install");
    assert_eq!(text(&install.arguments[1]), "-r");
    assert_eq!(in_project(&install.arguments[2]), vec!["requirements.txt"]);
    assert_eq!(install.needs, Some(vec!["requirements.txt".to_string()]));
    assert_eq!(install.failure, "Failed to install dependencies");
}

#[test]
fn a_failed_command_is_a_generator_error() {
    let config = Config::new().unwrap();
    let project = Project::new("demo", PathBuf::from("demo"));
    let commands = Python.setup_environment(&project, &config);
    match commands[0].failed("No such file or directory (os error 2)") {
        ProjectError::Generator(message) => assert_eq!(
            message,
            "Failed to create virtual environment: No such file or directory (os error 2)"
        ),
        other => panic!("unexpected error: {:?}", other),
    }
    match commands[1].failed("exit status: 1") {
        ProjectError::Generator(message) => {
            assert_eq!(message, "Failed to install dependencies: exit status: 1")
        }
        other => panic!("unexpected error: {:?}", other),
    }
}

#[test]
fn a_runtime_context_can_move_the_project() {
    let context = RuntimeContext::new(
        Config::new().unwrap(),
        "python".to_string(),
        "cli".to_string(),
        "tool".to_string(),
    );
    assert_eq!(context.project_path, PathBuf::from("tool"));
    let moved = context.with_path(PathBuf::from("/srv/projects/tool"));
    assert_eq!(moved.project_path, PathBuf::from("/srv/projects/tool"));
    assert_eq!(moved.project_name, "tool");
    assert_eq!(moved.project_type, "cli");
    assert_eq!(moved.language, "python");
    assert_eq!(moved.config.general.version, "3.9");
}

#[test]
fn a_command_is_due_unless_its_file_is_missing() {
    let commands = Python.setup_environment(
        &Project::new("demo", PathBuf::from("demo")),
        &Config::new().unwrap(),
    );
    assert!(is_due(&commands[0], true));
    assert!(is_due(&commands[0], false));
    assert!(is_due(&commands[1], true));
    assert!(!is_due(&commands[1], false));
}

#[test]
fn the_setup_goes_on_after_a_command_that_did_not_fail() {
    let commands = Python.setup_environment(
        &Project::new("demo", PathBuf::from("demo")),
        &Config::new().unwrap(),
    );
    assert!(matches!(after_command(&commands, 0, &Ran::Succeeded), Ok(Some(1))));
    assert!(matches!(after_command(&commands, 0, &Ran::LeftOut), Ok(Some(1))));
    assert!(matches!(after_command(&commands, 1, &Ran::Succeeded), Ok(None)));
    assert!(matches!(after_command(&commands, 1, &Ran::LeftOut), Ok(None)));
}

#[test]
fn the_setup_ends_at_the_first_command_that_failed() {
    let commands = Python.setup_environment(
        &Project::new("demo", PathBuf::from("demo")),
        &Config::new().unwrap(),
    );
    match after_command(&commands, 0, &Ran::Failed("exit status: 1".to_string())) {
        Err(ProjectError::Generator(message)) => {
            assert_eq!(message, "Failed to create virtual environment: exit status: 1")
        }
        other => panic!("unexpected result: {:?}", other),
    }
    match after_command(&commands, 1, &Ran::Failed("No such file or directory".to_string())) {
        Err(ProjectError::Generator(message)) => {
            assert_eq!(message, "Failed to install dependencies: No such file or directory")
        }
        other => panic!("unexpected result: {:?}", other),
    }
}
