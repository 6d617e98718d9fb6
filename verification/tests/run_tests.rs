use poq::cli::commands::{finish, resolve_kind, run, Resolved};
use poq::config::Config;
use poq::error::ProjectError;
use poq::model::generator::{Plan, Progress, Step};
use poq::model::language::{LanguageKind, TemplateSet};
use poq::model::RuntimeContext;
use std::path::PathBuf;

fn context(language: &str, project_type: &str, name: &str) -> RuntimeContext {
    RuntimeContext::new(
        Config::new().unwrap(),
        language.to_string(),
        project_type.to_string(),
        name.to_string(),
    )
}

fn resolved(project_type: &str) -> Resolved {
    run(context("python", project_type, "demo")).unwrap()
}

fn templates() -> TemplateSet {
    TemplateSet {
        gitignore: Ok("venv/\n".to_string()),
        readme: Ok("# {{project_name}}\n".to_string()),
        main: Ok("print('{{project_name}}')\n".to_string()),
    }
}

#[test]
fn a_run_begins_with_the_language() {
    let resolved = run(context("Python", "web", "My-App")).unwrap();
    assert_eq!(resolved.kind, LanguageKind::Python);
    assert_eq!(resolved.project.name, "My-App");
    assert_eq!(resolved.project.path, PathBuf::from("My-App"));
    assert_eq!(resolved.context.language, "Python");
    assert_eq!(resolved.context.project_type, "web");
    assert_eq!(resolved.context.project_name, "My-App");
}

#[test]
fn a_run_in_an_unsupported_language_ends_at_once() {
    match run(context("cobol", "web", "demo")) {
        Err(ProjectError::Config(message)) => assert_eq!(message, "Unsupported language: cobol"),
        other => panic!("unexpected result: {:?}", other),
    }
    assert!(matches!(resolve_kind("py"), Ok(LanguageKind::Python)));
    assert!(matches!(resolve_kind("ruby"), Err(ProjectError::Config(_))));
}

#[test]
fn a_run_reads_the_templates_of_its_project_type() {
    assert_eq!(
        resolved("data_science").template_paths().main,
        "templates/python/data_science/main.py.template"
    );
    assert_eq!(
        resolved("anything").template_paths().main,
        "templates/python/base/main.py.template"
    );
    assert_eq!(
        resolved("web").template_paths().readme,
        "templates/python/base/readme.template"
    );
}

#[test]
fn generation_follows_a_setup_that_succeeded() {
    let prepared = resolved("cli").prepare(templates()).unwrap();
    assert_eq!(prepared.setup_commands().len(), 2);
    let plan = prepared.after_setup(Ok(())).unwrap();
    assert!(plan.failure.is_none());
    assert_eq!(plan.steps.len(), 5);
    assert!(matches!(plan.steps[0], Step::CreateDirectory));
    match &plan.steps[1] {
        Step::WriteFile { name, content } => {
            assert_eq!(name, ".gitignore");
            assert_eq!(content, "venv/\n");
        }
        other => panic!("unexpected step: {:?}", other),
    }
    match &plan.steps[2] {
        Step::WriteFile { name, content } => {
            assert_eq!(name, "README.md");
            assert_eq!(content, "# demo\n");
        }
        other => panic!("unexpected step: {:?}", other),
    }
    match &plan.steps[3] {
        Step::WriteFile { name, content } => {
            assert_eq!(name, "main.py");
            assert_eq!(content, "print('demo')\n");
        }
        other => panic!("unexpected step: {:?}", other),
    }
    match &plan.steps[4] {
        Step::WriteFile { name, content } => {
            assert_eq!(name, "requirements.txt");
            assert_eq!(content, "argparse\npytest\n");
        }
        other => panic!("unexpected step: {:?}", other),
    }
}

#[test]
fn generation_is_skipped_after_a_setup_that_failed() {
    let prepared = resolved("cli").prepare(templates()).unwrap();
    let failure = ProjectError::Generator("Failed to create virtual environment: gone".to_string());
    match prepared.after_setup(Err(failure)) {
        Err(ProjectError::Generator(message)) => {
            assert_eq!(message, "Failed to create virtual environment: gone")
        }
        other => panic!("unexpected result: {:?}", other),
    }
}

#[test]
fn a_run_without_shared_templates_is_not_prepared() {
    let set = TemplateSet { gitignore: Err("gone".to_string()), ..templates() };
    let resolved = resolved("base");
    match resolved.prepare(set) {
        Err(ProjectError::Config(message)) => assert_eq!(
            message,
            "Failed to read template 'templates/python/base/gitignore.template': gone"
        ),
        other => panic!("unexpected result: {:?}", other),
    }
    assert!(resolved.prepare(templates()).is_ok());
}

#[test]
fn a_run_that_wrote_its_files_tells_how_to_go_on() {
    let lines = finish("demo", Ok(())).unwrap();
    assert_eq!(
        lines,
        vec![
            "To run your project:",
            "1. cd demo",
            "2. pip install -r requirements.txt",
            "3. python main.py",
        ]
    );
}

#[test]
fn a_run_that_failed_to_write_ends_with_that_failure() {
    let cause = std::io::Error::new(std::io::ErrorKind::PermissionDenied, "read-only");
    match finish("demo", Err(ProjectError::Io(cause))) {
        Err(ProjectError::Io(error)) => {
            assert_eq!(error.kind(), std::io::ErrorKind::PermissionDenied);
            assert_eq!(error.to_string(), "read-only");
        }
        other => panic!("unexpected result: {:?}", other),
    }
}

fn plan_of(names: &[&str], failure: Option<ProjectError>) -> Plan {
    let mut plan = Plan::new();
    for name in names {
        plan.push(Step::WriteFile { name: name.to_string(), content: String::new() });
    }
    if let Some(error) = failure {
        plan.fail(error);
    }
    plan
}

#[test]
fn a_plan_is_carried_out_step_by_step() {
    let plan = plan_of(&["a", "b"], None);
    let plan = match plan.begin() {
        Progress::Step(plan, 0) => plan,
        other => panic!("unexpected progress: {:?}", other),
    };
    let plan = match plan.after_step(0, Ok(())) {
        Progress::Step(plan, 1) => plan,
        other => panic!("unexpected progress: {:?}", other),
    };
    assert!(matches!(plan.after_step(1, Ok(())), Progress::Done(Ok(()))));
}

#[test]
fn a_plan_without_steps_is_done_at_once() {
    assert!(matches!(plan_of(&[], None).begin(), Progress::Done(Ok(()))));
    let failed = plan_of(&[], Some(ProjectError::Generator("stop".to_string())));
    assert!(matches!(failed.begin(), Progress::Done(Err(ProjectError::Generator(_)))));
}

#[test]
fn a_step_that_failed_ends_the_plan() {
    let plan = plan_of(&["a", "b", "c"], None);
    let cause = std::io::Error::new(std::io::ErrorKind::PermissionDenied, "read-only");
    match plan.after_step(0, Err(ProjectError::Io(cause))) {
        Progress::Done(Err(ProjectError::Io(error))) => assert_eq!(error.to_string(), "read-only"),
        other => panic!("unexpected progress: {:?}", other),
    }
}

#[test]
fn the_failure_of_a_plan_follows_its_steps() {
    let plan = plan_of(&["a"], Some(ProjectError::Generator("after the steps".to_string())));
    let plan = match plan.begin() {
        Progress::Step(plan, 0) => plan,
        other => panic!("unexpected progress: {:?}", other),
    };
    match plan.after_step(0, Ok(())) {
        Progress::Done(Err(ProjectError::Generator(message))) => {
            assert_eq!(message, "after the steps")
        }
        other => panic!("unexpected progress: {:?}", other),
    }
    let plan = plan_of(&["a"], None);
    assert!(matches!(plan.after_step(7, Ok(())), Progress::Done(Ok(()))));
}
