use poq::config::{Archetype, Config};
use poq::error::ProjectError;
use poq::languages::python::generators::base::BaseGenerator;
use poq::languages::python::generators::cli::CliGenerator;
use poq::languages::python::generators::common::GeneratorBase;
use poq::languages::python::generators::data_science::DataScienceGenerator;
use poq::languages::python::generators::web::WebGenerator;
use poq::model::generator::{Plan, ProjectGenerator, Step};
use poq::model::language::TemplateSet;
use poq::model::project::Project;
use poq::utils::Context;
use std::path::PathBuf;

const GITIGNORE: &str = "venv/\n__pycache__/\n";
const README: &str = "# {{project_name}}\n\n{{language}} {{language_version}}\n";
const MAIN: &str = "print(\"{{project_name_uppercase}} / {{project_name_lowercase}}\")\n";

fn read(text: &str) -> Result<String, String> {
    Ok(text.to_string())
}

fn unreadable(reason: &str) -> Result<String, String> {
    Err(reason.to_string())
}

fn templates() -> TemplateSet {
    TemplateSet { gitignore: read(GITIGNORE), readme: read(README), main: read(MAIN) }
}

fn project(name: &str) -> Project {
    Project::new(name, PathBuf::from(name))
}

fn written(plan: &Plan) -> Vec<(String, String)> {
    plan.steps
        .iter()
        .filter_map(|step| match step {
            Step::WriteFile { name, content } => Some((name.clone(), content.clone())),
            Step::CreateDirectory => None,
        })
        .collect()
}

fn file(name: &str, content: &str) -> (String, String) {
    (name.to_string(), content.to_string())
}

fn shared_files(name: &str, upper: &str, lower: &str) -> Vec<(String, String)> {
    vec![
        file(".gitignore", GITIGNORE),
        file("README.md", &format!("# {}\n\npython 3.9\n", name)),
        file("main.py", &format!("print(\"{} / {}\")\n", upper, lower)),
    ]
}

#[test]
fn cli_project_demo() {
    let generator = CliGenerator::new(templates()).unwrap();
    let config = Config::new().unwrap();
    let plan = generator.generate(&project("demo"), &config);
    assert!(plan.failure.is_none());
    assert_eq!(plan.steps.len(), 5);
    assert!(matches!(plan.steps[0], Step::CreateDirectory));
    let mut expected = shared_files("demo", "DEMO", "demo");
    expected.push(file("requirements.txt", "argparse\npytest\n"));
    assert_eq!(written(&plan), expected);
}

#[test]
fn cli_manifest_follows_the_configuration() {
    let generator = CliGenerator::new(templates()).unwrap();
    let mut config = Config::new().unwrap();
    config.cli.dependencies = vec!["click".to_string(), "rich".to_string(), "attrs".to_string()];
    config.web.dependencies = vec!["not-this".to_string()];
    config.test.framework = "unittest".to_string();
    let plan = generator.generate(&project("demo"), &config);
    let files = written(&plan);
    assert_eq!(files[3], file("requirements.txt", "click\nrich\nattrs\nunittest\n"));
    let lines: Vec<&str> = files[3].1.lines().collect();
    assert_eq!(lines, vec!["click", "rich", "attrs", "unittest"]);
    assert!(files[3].1.ends_with("unittest\n"));
    assert!(!files[3].1.ends_with("\n\n"));
}

#[test]
fn base_project_has_no_manifest() {
    let generator = BaseGenerator::new(templates()).unwrap();
    let mut config = Config::new().unwrap();
    config.base.dependencies = vec!["ignored".to_string()];
    let plan = generator.generate(&project("Plain"), &config);
    assert!(plan.failure.is_none());
    assert_eq!(plan.steps.len(), 4);
    assert!(matches!(plan.steps[0], Step::CreateDirectory));
    assert_eq!(written(&plan), shared_files("Plain", "PLAIN", "plain"));
    assert!(written(&plan).iter().all(|(name, _)| name != "requirements.txt"));
}

#[test]
fn web_project_lists_the_web_dependencies() {
    let generator = WebGenerator::new(templates()).unwrap();
    let plan = generator.generate(&project("Site"), &Config::new().unwrap());
    let mut expected = shared_files("Site", "SITE", "site");
    expected.push(file("requirements.txt", "fastapi\nuvicorn\npytest\n"));
    assert_eq!(written(&plan), expected);
    assert!(plan.failure.is_none());
}

#[test]
fn data_science_project_lists_its_dependencies() {
    let generator = DataScienceGenerator::new(templates()).unwrap();
    let plan = generator.generate(&project("lab"), &Config::new().unwrap());
    let mut expected = shared_files("lab", "LAB", "lab");
    expected.push(file("requirements.txt", "pandas\nnumpy\nmatplotlib\npytest\n"));
    assert_eq!(written(&plan), expected);
    assert!(plan.failure.is_none());
}

#[test]
fn generating_again_gives_the_same_plan() {
    let generator = CliGenerator::new(templates()).unwrap();
    let config = Config::new().unwrap();
    let first = generator.generate(&project("demo"), &config);
    let second = generator.generate(&project("demo"), &config);
    assert_eq!(written(&first), written(&second));
    assert_eq!(first.steps.len(), second.steps.len());
    assert!(first.failure.is_none() && second.failure.is_none());
}

#[test]
fn a_generator_without_entry_template_fails_at_the_entry_file() {
    let set = TemplateSet { main: unreadable("gone"), ..templates() };
    let generator = WebGenerator::new(set).unwrap();
    let plan = generator.generate(&project("demo"), &Config::new().unwrap());
    assert!(matches!(plan.failure, Some(ProjectError::Template(_))));
    assert_eq!(plan.steps.len(), 3);
    assert!(matches!(plan.steps[0], Step::CreateDirectory));
    let files = written(&plan);
    assert_eq!(files.len(), 2);
    assert_eq!(files[0].0, ".gitignore");
    assert_eq!(files[1].0, "README.md");
}

#[test]
fn an_entry_template_that_does_not_parse_is_left_out() {
    let set = TemplateSet { main: read("{{#if}}"), ..templates() };
    let generator = CliGenerator::new(set).unwrap();
    let plan = generator.generate(&project("demo"), &Config::new().unwrap());
    assert!(matches!(plan.failure, Some(ProjectError::Template(_))));
    assert_eq!(written(&plan).len(), 2);
}

#[test]
fn a_template_with_an_unknown_variable_ends_the_plan() {
    let set = TemplateSet { readme: read("{{author}}"), ..templates() };
    let generator = CliGenerator::new(set).unwrap();
    let plan = generator.generate(&project("demo"), &Config::new().unwrap());
    assert!(matches!(plan.failure, Some(ProjectError::Template(_))));
    assert_eq!(plan.steps.len(), 2);
    assert_eq!(written(&plan), vec![file(".gitignore", GITIGNORE)]);

    let set = TemplateSet { gitignore: read("{{author}}"), ..templates() };
    let generator = BaseGenerator::new(set).unwrap();
    let plan = generator.generate(&project("demo"), &Config::new().unwrap());
    assert!(matches!(plan.failure, Some(ProjectError::Template(_))));
    assert_eq!(plan.steps.len(), 1);
    assert!(matches!(plan.steps[0], Step::CreateDirectory));
}

#[test]
fn a_generator_needs_the_shared_templates() {
    let set = TemplateSet { gitignore: unreadable("No such file"), ..templates() };
    match CliGenerator::new(set) {
        Err(ProjectError::Config(message)) => assert_eq!(
            message,
            "Failed to read template 'templates/python/base/gitignore.template': No such file"
        ),
        Err(other) => panic!("unexpected error: {:?}", other),
        Ok(_) => panic!("the generator was built without .gitignore template"),
    }
    let set = TemplateSet { readme: unreadable("No such file"), ..templates() };
    match BaseGenerator::new(set) {
        Err(ProjectError::Config(message)) => assert_eq!(
            message,
            "Failed to read template 'templates/python/base/readme.template': No such file"
        ),
        Err(other) => panic!("unexpected error: {:?}", other),
        Ok(_) => panic!("the generator was built without readme template"),
    }
    let set = TemplateSet {
        gitignore: read("{{#if}}"),
        readme: unreadable("second"),
        ..templates()
    };
    match WebGenerator::new(set) {
        Err(ProjectError::Config(message)) => assert_eq!(
            message,
            "Failed to read template 'templates/python/base/readme.template': second"
        ),
        Err(other) => panic!("unexpected error: {:?}", other),
        Ok(_) => panic!("the generator was built without readme template"),
    }
    let set = TemplateSet {
        gitignore: unreadable("first"),
        readme: unreadable("second"),
        ..templates()
    };
    match DataScienceGenerator::new(set) {
        Err(ProjectError::Config(message)) => assert_eq!(
            message,
            "Failed to read template 'templates/python/base/gitignore.template': first"
        ),
        Err(other) => panic!("unexpected error: {:?}", other),
        Ok(_) => panic!("the generator was built without templates"),
    }
}

#[test]
fn a_shared_template_that_does_not_parse_ends_the_plan_at_its_file() {
    let set = TemplateSet { readme: read("{{#if}}"), ..templates() };
    let generator = match DataScienceGenerator::new(set) {
        Ok(generator) => generator,
        Err(error) => panic!("unexpected error: {:?}", error),
    };
    let plan = generator.generate(&project("demo"), &Config::new().unwrap());
    assert!(matches!(plan.failure, Some(ProjectError::Template(_))));
    assert_eq!(plan.steps.len(), 2);
    assert_eq!(written(&plan), vec![file(".gitignore", GITIGNORE)]);
}

#[test]
fn generator_base_loads_the_shared_templates() {
    let base = GeneratorBase::new("cli", read("ignore {{language}}"), read("readme")).unwrap();
    let mut data = Context::new();
    data.insert("language", "python");
    assert_eq!(base.engine.render("gitignore", &data).unwrap(), "ignore python");
    assert_eq!(base.engine.render("readme", &data).unwrap(), "readme");
    assert!(base.engine.render("main", &data).is_err());
}

#[test]
fn generator_base_loads_the_entry_template() {
    let mut base = GeneratorBase::new("cli", read("g"), read("r")).unwrap();
    match base.load_main_template("main.py.template", &unreadable("gone")) {
        Err(ProjectError::Config(message)) => assert_eq!(
            message,
            "Failed to read template 'templates/python/cli/main.py.template': gone"
        ),
        other => panic!("unexpected result: {:?}", other),
    }
    assert!(base.load_main_template("main.py.template", &read("entry")).is_ok());
    assert_eq!(base.engine.render("main", &Context::new()).unwrap(), "entry");

    let base = GeneratorBase::new("web", read("g"), read("r")).unwrap();
    match base.with_main_template("fastapi/main.py.template", &unreadable("gone")) {
        Err(ProjectError::Config(message)) => assert_eq!(
            message,
            "Failed to read template 'templates/python/web/fastapi/main.py.template': gone"
        ),
        Err(other) => panic!("unexpected error: {:?}", other),
        Ok(_) => panic!("the entry template was not read"),
    }
    let base = GeneratorBase::new("web", read("g"), read("r")).unwrap();
    let base = match base.with_main_template("fastapi/main.py.template", &read("{{project_name}}")) {
        Ok(base) => base,
        Err(error) => panic!("unexpected error: {:?}", error),
    };
    let plan = base.generate(Archetype::Base, &project("p"), &Config::new().unwrap());
    assert_eq!(written(&plan), vec![file(".gitignore", "g"), file("README.md", "r"), file("main.py", "p")]);
}

#[test]
fn the_context_of_a_project_holds_project_and_language() {
    let base = GeneratorBase::new("base", read("g"), read("r")).unwrap();
    let context = base.create_context(&project("My-App"), &Config::new().unwrap());
    assert_eq!(context.get("project_name"), Some("My-App"));
    assert_eq!(context.get("project_name_lowercase"), Some("my-app"));
    assert_eq!(context.get("project_name_uppercase"), Some("MY-APP"));
    assert_eq!(context.get("language"), Some("python"));
    assert_eq!(context.get("language_version"), Some("3.9"));
    assert_eq!(context.len(), 5);
}

#[test]
fn the_pieces_of_a_plan() {
    let base = GeneratorBase::new("base", read("g {{x}}"), read("r {{project_name}}")).unwrap();
    assert!(matches!(base.create_project_structure(), Step::CreateDirectory));

    let mut data = Context::new();
    data.insert("x", "1");
    match base.render_and_write("gitignore", "out.txt", &data) {
        Ok(Step::WriteFile { name, content }) => {
            assert_eq!(name, "out.txt");
            assert_eq!(content, "g 1");
        }
        other => panic!("unexpected result: {:?}", other),
    }
    assert!(matches!(
        base.render_and_write("absent", "out.txt", &data),
        Err(ProjectError::Template(_))
    ));

    let config = Config::new().unwrap();
    let shared = base.generate_base_files(&project("p"), &config);
    assert!(matches!(shared.failure, Some(ProjectError::Template(_))));
    assert!(shared.steps.is_empty());
    assert!(matches!(
        base.generate_main_file(&project("p"), &config),
        Err(ProjectError::Template(_))
    ));

    let base = GeneratorBase::new("base", read("g"), read("r {{project_name}}")).unwrap();
    let shared = base.generate_base_files(&project("p"), &config);
    assert!(shared.failure.is_none());
    assert_eq!(written(&shared), vec![file(".gitignore", "g"), file("README.md", "r p")]);
}

fn manifest(dependencies: &[&str], framework: Option<&str>) -> String {
    let base = GeneratorBase::new("base", read(""), read("")).unwrap();
    let dependencies: Vec<String> = dependencies.iter().map(|name| name.to_string()).collect();
    match base.generate_requirements(&dependencies, framework) {
        Step::WriteFile { name, content } => {
            assert_eq!(name, "requirements.txt");
            content
        }
        Step::CreateDirectory => panic!("the manifest is a file"),
    }
}

#[test]
fn the_manifest_lists_one_dependency_on_each_line() {
    assert_eq!(manifest(&["a", "b"], Some("t")), "a\nb\nt\n");
    assert_eq!(manifest(&["a"], Some("t")), "a\nt\n");
    assert_eq!(manifest(&["b", "a", "b"], Some("a")), "b\na\nb\na\n");
}

#[test]
fn the_manifest_without_dependencies_holds_the_framework() {
    assert_eq!(manifest(&[], Some("pytest")), "pytest\n");
}

#[test]
fn the_manifest_without_framework_holds_the_dependencies() {
    assert_eq!(manifest(&["a", "b"], None), "a\nb\n");
    assert_eq!(manifest(&[], None), "\n");
}

#[test]
fn the_manifest_keeps_empty_lines() {
    assert_eq!(manifest(&[""], Some("t")), "\nt\n");
    assert_eq!(manifest(&["", ""], Some("t")), "\n\nt\n");
    assert_eq!(manifest(&["", "x"], Some("t")), "\nx\nt\n");
    assert_eq!(manifest(&[""], None), "\n");
    assert_eq!(manifest(&["a"], Some("")), "a\n\n");
}

#[test]
fn plans_are_built_step_by_step() {
    let mut plan = Plan::new();
    assert!(plan.steps.is_empty());
    assert!(plan.failure.is_none());
    plan.push(Step::CreateDirectory);
    plan.append(vec![
        Step::WriteFile { name: "a".to_string(), content: "1".to_string() },
        Step::WriteFile { name: "b".to_string(), content: "2".to_string() },
    ]);
    plan.fail(ProjectError::Generator("stop".to_string()));
    assert_eq!(plan.steps.len(), 3);
    assert!(matches!(plan.steps[0], Step::CreateDirectory));
    assert_eq!(written(&plan), vec![file("a", "1"), file("b", "2")]);
    assert!(matches!(plan.failure, Some(ProjectError::Generator(_))));
}

#[test]
fn a_project_without_test_framework_lists_only_its_dependencies() {
    let generator = CliGenerator::new(templates()).unwrap();
    let mut config = Config::new().unwrap();
    config.cli.dependencies = vec!["argparse".to_string()];
    config.test.framework = String::new();
    let plan = generator.generate(&project("demo"), &config);
    assert!(plan.failure.is_none());
    let files = written(&plan);
    assert_eq!(files.len(), 4);
    assert_eq!(files[3], file("requirements.txt", "argparse\n"));

    let generator = WebGenerator::new(templates()).unwrap();
    let plan = generator.generate(&project("demo"), &config);
    assert_eq!(written(&plan)[3], file("requirements.txt", "fastapi\nuvicorn\n"));

    config.cli.dependencies = Vec::new();
    let generator = CliGenerator::new(templates()).unwrap();
    let plan = generator.generate(&project("demo"), &config);
    assert_eq!(written(&plan)[3], file("requirements.txt", "\n"));
}

#[test]
fn an_entry_template_with_a_partial_tag_ends_the_plan_at_the_entry_file() {
    let set = TemplateSet { main: read("{{> readme}}"), ..templates() };
    let generator = CliGenerator::new(set).unwrap();
    let plan = generator.generate(&project("demo"), &Config::new().unwrap());
    assert!(matches!(plan.failure, Some(ProjectError::Template(_))));
    assert_eq!(written(&plan).len(), 2);
}
