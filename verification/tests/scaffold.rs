use swim_scaffold::catalog::{
    Catalog, EntryKind, ProjectParameters, Template, TemplateEntry,
};
use swim_scaffold::error::CliError;
use swim_scaffold::orchestrator::{Orchestrator, Phase, ScaffoldStep};
use swim_scaffold::plan::{create_file, create_jar_file, create_regular_file, PlanAction};

const ROOT: &str = "swim-gradle-template";

fn params() -> ProjectParameters {
    ProjectParameters::new(
        "myapp".to_string(),
        9001,
        "4.1.0".to_string(),
        Template::Gradle,
    )
}

fn entry(path: &str, kind: EntryKind, content: &[u8]) -> TemplateEntry {
    TemplateEntry { relative_path: path.to_string(), kind, content: content.to_vec() }
}

fn text_entry(path: &str, content: &str) -> TemplateEntry {
    entry(path, EntryKind::TextFile, content.as_bytes())
}

#[test]
fn variant_folders() {
    assert_eq!(Template::Gradle.get_folder(), "swim-gradle-template");
    assert_eq!(Template::GradleModule.get_folder(), "swim-gradle-module-template");
    assert_eq!(Template::Maven.get_folder(), "swim-maven-template");
    assert_eq!(Template::MavenModule.get_folder(), "swim-maven-module-template");
    assert_eq!(Template::Rust.get_folder(), "swim-rust-template");
    assert_eq!(Template::default(), Template::Gradle);
}

#[test]
fn enumerate_filters_by_variant_folder() {
    let mut catalog = Catalog::new();
    catalog.push(text_entry("swim-gradle-template/a.txt", "a"));
    catalog.push(text_entry("swim-maven-template/b.txt", "b"));
    catalog.push(text_entry("swim-gradle-template/sub/c.txt", "c"));
    let paths = catalog.enumerate(ROOT);
    assert_eq!(paths, vec![
        "swim-gradle-template/a.txt".to_string(),
        "swim-gradle-template/sub/c.txt".to_string()
    ]);
}

#[test]
fn get_returns_first_match() {
    let mut catalog = Catalog::new();
    catalog.push(text_entry("p/a.txt", "first"));
    catalog.push(text_entry("p/a.txt", "second"));
    let found = catalog.get("p/a.txt").unwrap();
    assert_eq!(found.content, b"first".to_vec());
    assert!(catalog.get("p/absent.txt").is_none());
}

#[test]
fn text_plan_renders_content() {
    let mut catalog = Catalog::new();
    catalog.push(text_entry(
        "swim-gradle-template/cfg/recon.properties",
        "port={{ port }}\n",
    ));
    let p = params();
    let plan = create_file(&catalog, "swim-gradle-template/cfg/recon.properties", &p, ROOT)
        .unwrap();
    assert_eq!(plan.target, "myapp/cfg/recon.properties");
    assert_eq!(plan.parent_dirs, vec!["myapp".to_string(), "myapp/cfg".to_string()]);
    match plan.action {
        PlanAction::WriteFile { content, executable } => {
            assert_eq!(content, b"port=9001\n".to_vec());
            assert!(!executable);
        },
        PlanAction::MakeDir => panic!("expected a file write"),
    }
}

#[test]
fn binary_plan_is_byte_identical() {
    let raw: Vec<u8> = vec![0x50, 0x4b, 0x03, 0x04, 0xff, 0x00, 0x7b, 0x7b];
    let mut catalog = Catalog::new();
    catalog.push(entry("swim-gradle-template/lib/core.jar", EntryKind::BinaryFile, &raw));
    let p = params();
    let plan = create_file(&catalog, "swim-gradle-template/lib/core.jar", &p, ROOT).unwrap();
    assert_eq!(plan.target, "myapp/lib/core.jar");
    match plan.action {
        PlanAction::WriteFile { content, executable } => {
            assert_eq!(content, raw);
            assert!(!executable);
        },
        PlanAction::MakeDir => panic!("expected a file write"),
    }
}

#[test]
fn launcher_plan_is_executable() {
    let mut catalog = Catalog::new();
    catalog.push(text_entry("swim-gradle-template/gradlew", "#!/bin/sh\nrun {{name}}\n"));
    let p = params();
    let plan = create_file(&catalog, "swim-gradle-template/gradlew", &p, ROOT).unwrap();
    match plan.action {
        PlanAction::WriteFile { content, executable } => {
            assert_eq!(content, b"#!/bin/sh\nrun myapp\n".to_vec());
            assert!(executable);
        },
        PlanAction::MakeDir => panic!("expected a file write"),
    }
}

#[test]
fn directory_plan_makes_dir() {
    let mut catalog = Catalog::new();
    catalog.push(entry("swim-gradle-template/empty", EntryKind::Directory, b""));
    let p = params();
    let plan = create_file(&catalog, "swim-gradle-template/empty", &p, ROOT).unwrap();
    assert_eq!(plan.target, "myapp/empty");
    assert!(matches!(plan.action, PlanAction::MakeDir));
}

#[test]
fn undefined_variable_plans_nothing() {
    let mut catalog = Catalog::new();
    catalog.push(text_entry("swim-gradle-template/bad.txt", "x {{unknown}} y"));
    let p = params();
    match create_file(&catalog, "swim-gradle-template/bad.txt", &p, ROOT) {
        Err(CliError::CreateFile { file, description }) => {
            assert_eq!(file, "myapp/bad.txt");
            assert_eq!(description, "Variable 'unknown' is not defined!");
        },
        other => panic!("expected a file-write failure, got {:?}", other),
    }
}

#[test]
fn absent_entry_is_a_missing_source_file() {
    let catalog = Catalog::new();
    let p = params();
    match create_file(&catalog, "swim-gradle-template/ghost.txt", &p, ROOT) {
        Err(CliError::MissingFile { file }) => assert_eq!(file, "myapp/ghost.txt"),
        other => panic!("expected a missing-file failure, got {:?}", other),
    }
}

#[test]
fn invalid_utf8_text_is_rejected() {
    let mut catalog = Catalog::new();
    catalog.push(entry("swim-gradle-template/bad.txt", EntryKind::TextFile, &[0xff, 0xfe]));
    let p = params();
    match create_file(&catalog, "swim-gradle-template/bad.txt", &p, ROOT) {
        Err(CliError::CreateFile { file, description }) => {
            assert_eq!(file, "myapp/bad.txt");
            assert_eq!(description, "The template content is not valid UTF-8!");
        },
        other => panic!("expected a file-write failure, got {:?}", other),
    }
}

#[test]
fn foreign_path_is_a_resolution_failure() {
    let mut catalog = Catalog::new();
    catalog.push(text_entry("elsewhere/a.txt", "a"));
    let p = params();
    match create_file(&catalog, "elsewhere/a.txt", &p, ROOT) {
        Err(CliError::CreateFile { file, description }) => {
            assert_eq!(file, "elsewhere/a.txt");
            assert_eq!(description, "The template path is outside the template folder!");
        },
        other => panic!("expected a resolution failure, got {:?}", other),
    }
}

#[test]
fn regular_and_jar_content_helpers() {
    let p = params();
    let text = text_entry("t", "v {{version}}");
    let rendered = create_regular_file(&text, &"out".to_string(), &p).unwrap();
    assert_eq!(rendered, b"v 4.1.0".to_vec());
    let raw: Vec<u8> = vec![1, 2, 3, 255];
    let jar = entry("t.jar", EntryKind::BinaryFile, &raw);
    assert_eq!(create_jar_file(&jar), raw);
}

#[test]
fn full_run_plans_every_entry() {
    let mut catalog = Catalog::new();
    // A child path enumerated before anything creates its parents: the plan
    // itself must carry the full ancestor chain.
    catalog.push(text_entry(
        "swim-gradle-template/src/main/java/{{name}}/Main.java",
        "package {{name}};\n",
    ));
    catalog.push(text_entry("swim-gradle-template/build.gradle", "version '{{version}}'\n"));
    catalog.push(text_entry("swim-gradle-template/gradlew", "run {{name}} {{ port }}\n"));
    let mut o = Orchestrator::new(params(), catalog, ROOT.to_string());
    assert_eq!(o.phase, Phase::NotStarted);
    assert_eq!(o.root_dir(), "myapp");
    o.on_root_created();
    assert_eq!(o.phase, Phase::RootCreated);

    let mut plans = Vec::new();
    loop {
        match o.next_step().unwrap() {
            ScaffoldStep::Materialize(plan) => plans.push(plan),
            ScaffoldStep::Finished => break,
        }
    }
    assert_eq!(o.phase, Phase::Done);
    assert_eq!(plans.len(), 3);

    assert_eq!(plans[0].target, "myapp/src/main/java/myapp/Main.java");
    assert_eq!(plans[0].parent_dirs, vec![
        "myapp".to_string(),
        "myapp/src".to_string(),
        "myapp/src/main".to_string(),
        "myapp/src/main/java".to_string(),
        "myapp/src/main/java/myapp".to_string()
    ]);
    match &plans[0].action {
        PlanAction::WriteFile { content, executable } => {
            assert_eq!(content.as_slice(), b"package myapp;\n");
            assert!(!executable);
        },
        PlanAction::MakeDir => panic!("expected a file write"),
    }

    assert_eq!(plans[1].target, "myapp/build.gradle");
    match &plans[1].action {
        PlanAction::WriteFile { content, .. } => {
            assert_eq!(content.as_slice(), b"version '4.1.0'\n")
        },
        PlanAction::MakeDir => panic!("expected a file write"),
    }

    assert_eq!(plans[2].target, "myapp/gradlew");
    match &plans[2].action {
        PlanAction::WriteFile { content, executable } => {
            assert_eq!(content.as_slice(), b"run myapp 9001\n");
            assert!(executable);
        },
        PlanAction::MakeDir => panic!("expected a file write"),
    }
}

#[test]
fn empty_catalog_run_completes_after_the_root() {
    let mut o = Orchestrator::new(params(), Catalog::new(), ROOT.to_string());
    o.on_root_created();
    match o.next_step().unwrap() {
        ScaffoldStep::Finished => {},
        ScaffoldStep::Materialize(plan) => panic!("expected no plan, got {:?}", plan),
    }
    assert_eq!(o.phase, Phase::Done);
}

#[test]
fn root_failure_ends_the_run_before_any_entry() {
    let mut catalog = Catalog::new();
    catalog.push(text_entry("swim-gradle-template/a.txt", "a"));
    let mut o = Orchestrator::new(params(), catalog, ROOT.to_string());
    assert_eq!(o.root_dir(), "myapp");
    // The driver found the root already on disk and reports the failure.
    o.on_root_failed();
    assert_eq!(o.phase, Phase::Failed);
    assert_eq!(o.next, 0);
}

#[test]
fn first_planning_failure_stops_the_run() {
    let mut catalog = Catalog::new();
    catalog.push(text_entry("swim-gradle-template/good.txt", "ok {{name}}"));
    catalog.push(text_entry("swim-gradle-template/bad.txt", "{{unknown}}"));
    catalog.push(text_entry("swim-gradle-template/later.txt", "never planned"));
    let mut o = Orchestrator::new(params(), catalog, ROOT.to_string());
    o.on_root_created();

    match o.next_step().unwrap() {
        ScaffoldStep::Materialize(plan) => assert_eq!(plan.target, "myapp/good.txt"),
        ScaffoldStep::Finished => panic!("expected a plan"),
    }
    match o.next_step() {
        Err(CliError::CreateFile { file, description }) => {
            assert_eq!(file, "myapp/bad.txt");
            assert_eq!(description, "Variable 'unknown' is not defined!");
        },
        other => panic!("expected a file-write failure, got {:?}", other),
    }
    assert_eq!(o.phase, Phase::Failed);
    assert_eq!(o.next, 1);
}

#[test]
fn entry_write_failure_fails_the_run() {
    let mut catalog = Catalog::new();
    catalog.push(text_entry("swim-gradle-template/a.txt", "a"));
    let mut o = Orchestrator::new(params(), catalog, ROOT.to_string());
    o.on_root_created();
    match o.next_step().unwrap() {
        ScaffoldStep::Materialize(_) => {},
        ScaffoldStep::Finished => panic!("expected a plan"),
    }
    // The driver could not write the file it was handed.
    o.on_entry_failed();
    assert_eq!(o.phase, Phase::Failed);
}

#[test]
fn invalid_name_never_reaches_a_run() {
    match swim_scaffold::ident::validate_name("123bad") {
        Err(CliError::ProjectName) => {},
        other => panic!("expected a name failure, got {:?}", other),
    }
}
