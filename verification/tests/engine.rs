use swim_scaffold::catalog::{ProjectParameters, Template};
use swim_scaffold::error::CliError;
use swim_scaffold::ident::{is_valid_identifier, validate_name};
use swim_scaffold::paths::{
    classify_path, collision_free, get_output_dir, is_launcher, parent_dirs, ResolveError,
};
use swim_scaffold::catalog::EntryKind;
use swim_scaffold::render::{replace_text, u16_to_dec, RenderError};

fn params(name: &str, port: u16, version: &str) -> ProjectParameters {
    ProjectParameters::new(
        name.to_string(),
        port,
        version.to_string(),
        Template::Gradle,
    )
}

#[test]
fn validate_accepts_plain_name() {
    assert_eq!(validate_name("myapp").unwrap(), "myapp");
}

#[test]
fn validate_lowercases() {
    assert_eq!(validate_name("myApp").unwrap(), "myapp");
}

#[test]
fn validate_trims_whitespace() {
    assert_eq!(validate_name("  MyApp\t ").unwrap(), "myapp");
}

#[test]
fn validate_accepts_underscore_start() {
    assert_eq!(validate_name("_x9").unwrap(), "_x9");
}

#[test]
fn validate_rejects_leading_digit() {
    assert!(matches!(validate_name("123bad"), Err(CliError::ProjectName)));
}

#[test]
fn validate_rejects_embedded_space() {
    assert!(matches!(validate_name("my app"), Err(CliError::ProjectName)));
}

#[test]
fn validate_rejects_punctuation() {
    assert!(matches!(validate_name("my-app"), Err(CliError::ProjectName)));
}

#[test]
fn validate_rejects_empty() {
    assert!(matches!(validate_name(""), Err(CliError::ProjectName)));
    assert!(matches!(validate_name("   "), Err(CliError::ProjectName)));
}

#[test]
fn identifier_grammar() {
    assert!(is_valid_identifier("abc_123"));
    assert!(is_valid_identifier("_"));
    assert!(!is_valid_identifier(""));
    assert!(!is_valid_identifier("9abc"));
    assert!(!is_valid_identifier("ab.c"));
    assert!(!is_valid_identifier("ab c"));
}

#[test]
fn render_substitutes_name() {
    let p = params("myapp", 9001, "4.1.0");
    assert_eq!(replace_text("hello {{name}}!", &p).unwrap(), "hello myapp!");
}

#[test]
fn render_substitutes_port_literally() {
    let p = params("myapp", 9001, "4.1.0");
    assert_eq!(replace_text("port={{ port }}", &p).unwrap(), "port=9001");
}

#[test]
fn render_substitutes_version() {
    let p = params("myapp", 9001, "4.1.0");
    assert_eq!(replace_text("v={{version}}", &p).unwrap(), "v=4.1.0");
}

#[test]
fn render_allows_padding_inside_placeholder() {
    let p = params("myapp", 9001, "4.1.0");
    assert_eq!(replace_text("{{  name\t}}", &p).unwrap(), "myapp");
}

#[test]
fn render_is_deterministic() {
    let p = params("myapp", 9001, "4.1.0");
    let text = "a {{name}} b {{ port }} c {{version}} d";
    let first = replace_text(text, &p).unwrap();
    let second = replace_text(text, &p).unwrap();
    assert_eq!(first.as_bytes(), second.as_bytes());
}

#[test]
fn render_of_empty_text_is_empty() {
    let p = params("myapp", 9001, "4.1.0");
    assert_eq!(replace_text("", &p).unwrap(), "");
}

#[test]
fn render_of_bare_placeholder_is_the_value() {
    let p = params("myapp", 9001, "4.1.0");
    assert_eq!(replace_text("{{name}}", &p).unwrap(), "myapp");
}

#[test]
fn render_keeps_literal_text() {
    let p = params("myapp", 9001, "4.1.0");
    assert_eq!(replace_text("no placeholders here", &p).unwrap(), "no placeholders here");
    assert_eq!(replace_text("a{b}c }} d {", &p).unwrap(), "a{b}c }} d {");
}

#[test]
fn render_fails_on_undefined_variable() {
    let p = params("myapp", 9001, "4.1.0");
    match replace_text("x {{unknown}} y", &p) {
        Err(RenderError::UndefinedVariable { name }) => assert_eq!(name, "unknown"),
        other => panic!("expected an undefined-variable failure, got {:?}", other),
    }
}

#[test]
fn render_fails_on_unclosed_placeholder() {
    let p = params("myapp", 9001, "4.1.0");
    match replace_text("ab{{name", &p) {
        Err(RenderError::UnclosedPlaceholder { at }) => assert_eq!(at, 2),
        other => panic!("expected an unclosed-placeholder failure, got {:?}", other),
    }
}

#[test]
fn render_rejects_block_markup() {
    let p = params("myapp", 9001, "4.1.0");
    match replace_text("{% if x %}y{% endif %}", &p) {
        Err(RenderError::UnsupportedMarkup { at }) => assert_eq!(at, 0),
        other => panic!("expected an unsupported-markup failure, got {:?}", other),
    }
}

#[test]
fn render_rejects_comment_markup() {
    let p = params("myapp", 9001, "4.1.0");
    match replace_text("a {# note #} b", &p) {
        Err(RenderError::UnsupportedMarkup { at }) => assert_eq!(at, 2),
        other => panic!("expected an unsupported-markup failure, got {:?}", other),
    }
}

#[test]
fn port_formatting_is_decimal() {
    assert_eq!(u16_to_dec(0), "0");
    assert_eq!(u16_to_dec(7), "7");
    assert_eq!(u16_to_dec(9001), "9001");
    assert_eq!(u16_to_dec(65535), "65535");
}

#[test]
fn resolver_reroots_and_renders() {
    let p = params("myapp", 9001, "4.1.0");
    let out = get_output_dir("tmpl/src/{{name}}/main.rs", &p, "tmpl").unwrap();
    assert_eq!(out, "myapp/src/myapp/main.rs");
}

#[test]
fn resolver_rejects_foreign_prefix() {
    let p = params("myapp", 9001, "4.1.0");
    assert!(matches!(
        get_output_dir("other/x.txt", &p, "tmpl"),
        Err(ResolveError::MissingPrefix)
    ));
}

#[test]
fn resolver_surfaces_render_failures() {
    let p = params("myapp", 9001, "4.1.0");
    match get_output_dir("tmpl/{{bogus}}.txt", &p, "tmpl") {
        Err(ResolveError::Render(RenderError::UndefinedVariable { name })) => {
            assert_eq!(name, "bogus")
        },
        other => panic!("expected a render failure, got {:?}", other),
    }
}

#[test]
fn distinct_paths_resolve_apart() {
    let p = params("myapp", 9001, "4.1.0");
    let paths = vec![
        "tmpl/a.txt".to_string(),
        "tmpl/sub/b.txt".to_string(),
        "tmpl/{{name}}/c.txt".to_string(),
    ];
    assert!(collision_free(&paths, &p, "tmpl"));
}

#[test]
fn colliding_paths_are_detected() {
    let p = params("myapp", 9001, "4.1.0");
    // Both entries resolve to "myapp/myapp.txt": a catalog authoring defect.
    let paths = vec!["tmpl/{{name}}.txt".to_string(), "tmpl/myapp.txt".to_string()];
    assert!(!collision_free(&paths, &p, "tmpl"));
}

#[test]
fn duplicate_paths_are_not_a_collision() {
    let p = params("myapp", 9001, "4.1.0");
    let paths = vec!["tmpl/a.txt".to_string(), "tmpl/a.txt".to_string()];
    assert!(collision_free(&paths, &p, "tmpl"));
}

#[test]
fn unresolvable_paths_do_not_collide() {
    let p = params("myapp", 9001, "4.1.0");
    let paths = vec!["other/a.txt".to_string(), "tmpl/{{bogus}}.txt".to_string()];
    assert!(collision_free(&paths, &p, "tmpl"));
}

#[test]
fn parent_chain_lists_every_ancestor_in_order() {
    assert_eq!(parent_dirs("a/b/c.txt"), vec!["a".to_string(), "a/b".to_string()]);
    assert_eq!(parent_dirs("myapp/cfg/recon.properties"), vec![
        "myapp".to_string(),
        "myapp/cfg".to_string()
    ]);
}

#[test]
fn parent_chain_of_bare_file_is_empty() {
    assert_eq!(parent_dirs("file.txt"), Vec::<String>::new());
}

#[test]
fn jar_paths_are_binary() {
    assert_eq!(classify_path("tmpl/lib/core.jar"), EntryKind::BinaryFile);
    assert_eq!(classify_path("tmpl/build.gradle"), EntryKind::TextFile);
    assert_eq!(classify_path("tmpl/jarless"), EntryKind::TextFile);
}

#[test]
fn launcher_scripts_are_tagged() {
    assert!(is_launcher("tmpl/gradlew"));
    assert!(is_launcher("tmpl/gradlew.bat"));
    assert!(!is_launcher("tmpl/build.gradle"));
}

#[test]
fn error_lines_name_path_and_cause() {
    let e = CliError::create_dir_err("myapp".to_string(), "already exists".to_string());
    assert_eq!(e.message(), "Unable to create directory 'myapp': already exists!");
    let e = CliError::create_file_err("myapp/a.txt".to_string(), "denied".to_string());
    assert_eq!(e.message(), "Unable to write file 'myapp/a.txt': denied!");
    let e = CliError::missing_file_err("myapp/a.txt".to_string());
    assert_eq!(e.message(), "Unable to write file 'myapp/a.txt': Source file is missing!");
    let e = CliError::project_name_err();
    assert_eq!(
        e.message(),
        "The project name must start with a letter and contain only alphanumeric characters and underscores!"
    );
}
