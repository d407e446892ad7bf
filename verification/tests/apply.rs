use templater::cli::Cmd;
use templater::commands::apply::{exit_status, ApplyError, Engine, Options, Phase, Reply, Request};
use templater::commands::applygit::plan;
use templater::config::{get_config, Config, Variables};
use templater::descriptor::DescriptorParseError;
use templater::render::{RenderFailure, SourceEntry, TemplateError};

fn config() -> Config {
    Config {
        templates_dir: "/repo".to_string(),
        variables: Variables { full_name: "Ada".to_string(), license: "MIT".to_string() },
    }
}

fn options(target: &str, template: Option<&str>, force: bool) -> Options {
    Options {
        target_dir: target.to_string(),
        template_name: template.map(|s| s.to_string()),
        force,
        must_exist: true,
    }
}

fn entry(path: &str, text: &str) -> Reply {
    Reply::Entry(SourceEntry { path: path.to_string(), text: text.to_string() })
}

/// Runs the engine up to the walk, over a forced run of template `t` into `/tmp/out/demo`.
fn walking(descriptor: Option<&str>, snippets: Vec<(String, String)>) -> Engine {
    let (e, _) = Engine::new(config(), options("/tmp/out/demo", Some("t"), true));
    let (e, _) = e.step(Reply::Exists(true));
    let (e, _) = e.step(Reply::Exists(true));
    let (e, r) = e.step(Reply::Text(descriptor.map(|s| s.to_string())));
    assert!(matches!(r, Request::LoadResources(_)), "{:?}", r);
    let (e, r) = e.step(Reply::Snippets(snippets));
    assert!(matches!(r, Request::NextEntry(_)), "{:?}", r);
    e
}

#[test]
fn literal_descriptor_renders_the_project() {
    let (e, r) = Engine::new(config(), options("/tmp/out/demo", Some("t"), false));
    assert!(matches!(r, Request::CheckTarget(ref p) if p == "/tmp/out/demo"), "{:?}", r);
    assert_eq!(e.phase(), Phase::ValidateTarget);
    let (e, r) = e.step(Reply::Exists(true));
    assert!(matches!(r, Request::CheckTemplate(ref p) if p == "/repo/templates/t"), "{:?}", r);
    let (e, r) = e.step(Reply::Exists(true));
    assert!(matches!(r, Request::InspectTarget(ref p) if p == "/tmp/out/demo"), "{:?}", r);
    let (e, r) = e.step(Reply::Empty(true));
    assert!(
        matches!(r, Request::ReadDescriptor(ref p) if p == "/repo/templates/t/template.toml"),
        "{:?}",
        r
    );
    let (e, r) = e.step(Reply::Text(Some("[variables]\nproject_type = \"app\"\n".to_string())));
    assert!(matches!(r, Request::LoadResources(ref p) if p == "/repo/internal/files"), "{:?}", r);
    let mut names = e.bindings().names();
    names.sort();
    assert_eq!(names, vec!["full_name", "license", "project_name", "project_type"]);
    let (e, r) = e.step(Reply::Snippets(Vec::new()));
    assert!(matches!(r, Request::NextEntry(ref p) if p == "/repo/templates/t"), "{:?}", r);
    let (e, r) = e.step(entry("{{project_name}}/main.ext", "// {{project_type}}"));
    match r {
        Request::Write(output) => {
            assert_eq!(output.path, "/tmp/out/demo/demo/main.ext");
            assert_eq!(output.text, "// app");
        }
        other => panic!("unexpected: {:?}", other),
    }
    assert_eq!(e.phase(), Phase::Write);
    let (e, r) = e.step(Reply::Written);
    assert!(matches!(r, Request::NextEntry(_)), "{:?}", r);
    let (e, r) = e.step(Reply::NoMoreEntries);
    match r {
        Request::Finish(outcome) => {
            assert!(outcome.is_ok());
            assert_eq!(exit_status(&outcome), 0);
        }
        other => panic!("unexpected: {:?}", other),
    }
    assert_eq!(e.phase(), Phase::Done);
}

#[test]
fn declined_overwrite_ends_the_run_with_status_one() {
    let (e, _) = Engine::new(config(), options("/tmp/out", Some("t"), false));
    let (e, _) = e.step(Reply::Exists(true));
    let (e, r) = e.step(Reply::Exists(true));
    assert!(matches!(r, Request::InspectTarget(_)), "{:?}", r);
    let (e, r) = e.step(Reply::Empty(false));
    assert!(matches!(r, Request::Confirm), "{:?}", r);
    assert_eq!(e.phase(), Phase::Confirm);
    assert!(!e.agreed());
    let (e, r) = e.step(Reply::Confirmed(false));
    assert!(!e.agreed());
    match r {
        Request::Finish(outcome) => {
            assert!(matches!(outcome, Err(ApplyError::OverwriteDeclined)));
            assert_eq!(exit_status(&outcome), 1);
        }
        other => panic!("unexpected: {:?}", other),
    }
    assert_eq!(e.phase(), Phase::Done);
    let (e, r) = e.step(entry("a", "b"));
    assert!(matches!(r, Request::Finish(Err(ApplyError::Protocol))), "{:?}", r);
    assert_eq!(e.phase(), Phase::Done);
}

#[test]
fn confirmed_overwrite_goes_on() {
    let (e, _) = Engine::new(config(), options("/tmp/out", Some("t"), false));
    let (e, _) = e.step(Reply::Exists(true));
    let (e, _) = e.step(Reply::Exists(true));
    let (e, _) = e.step(Reply::Empty(false));
    let (e, r) = e.step(Reply::Confirmed(true));
    assert!(matches!(r, Request::ReadDescriptor(_)), "{:?}", r);
    assert!(e.agreed());
}

#[test]
fn force_does_not_look_at_the_target() {
    let (e, _) = Engine::new(config(), options("/tmp/out", Some("t"), true));
    let (e, _) = e.step(Reply::Exists(true));
    assert!(!e.agreed());
    let (e, r) = e.step(Reply::Exists(true));
    assert!(matches!(r, Request::ReadDescriptor(_)), "{:?}", r);
    assert!(e.agreed());
}

#[test]
fn missing_target_ends_the_run() {
    let (e, _) = Engine::new(config(), options("/nowhere", Some("t"), false));
    let (_, r) = e.step(Reply::Exists(false));
    assert!(
        matches!(r, Request::Finish(Err(ApplyError::TargetMissing(ref p))) if p == "/nowhere"),
        "{:?}",
        r
    );
}

#[test]
fn missing_template_ends_the_run() {
    let (e, _) = Engine::new(config(), options("/tmp/out", Some("nope"), false));
    let (e, _) = e.step(Reply::Exists(true));
    let (_, r) = e.step(Reply::Exists(false));
    assert!(
        matches!(r, Request::Finish(Err(ApplyError::TemplateMissing(ref p))) if p == "/repo/templates/nope"),
        "{:?}",
        r
    );
}

#[test]
fn template_is_picked_where_none_is_named() {
    let (e, _) = Engine::new(config(), options("/tmp/out", None, true));
    let (e, r) = e.step(Reply::Exists(true));
    assert!(matches!(r, Request::ListTemplates(ref p) if p == "/repo/templates"), "{:?}", r);
    let (e, r) = e.step(Reply::Names(Some(vec!["rust".to_string(), "go".to_string()])));
    assert!(matches!(r, Request::ChooseTemplate(ref n) if n == &["rust", "go"]), "{:?}", r);
    let (_, r) = e.step(Reply::Chosen(Some("go".to_string())));
    assert!(
        matches!(r, Request::ReadDescriptor(ref p) if p == "/repo/templates/go/template.toml"),
        "{:?}",
        r
    );
}

#[test]
fn missing_templates_directory_ends_the_run() {
    let (e, _) = Engine::new(config(), options("/tmp/out", None, true));
    let (e, _) = e.step(Reply::Exists(true));
    let (_, r) = e.step(Reply::Names(None));
    assert!(
        matches!(r, Request::Finish(Err(ApplyError::TemplateMissing(ref p))) if p == "/repo/templates"),
        "{:?}",
        r
    );
}

#[test]
fn malformed_descriptor_ends_the_run_before_any_file() {
    let (e, _) = Engine::new(config(), options("/tmp/out", Some("t"), true));
    let (e, _) = e.step(Reply::Exists(true));
    let (e, _) = e.step(Reply::Exists(true));
    let (e, r) = e.step(Reply::Text(Some("[variables]\nx = 1\n".to_string())));
    match r {
        Request::Finish(Err(ApplyError::Descriptor(DescriptorParseError::Entry(name)))) => {
            assert_eq!(name, "x")
        }
        other => panic!("unexpected: {:?}", other),
    }
    assert_eq!(e.phase(), Phase::Done);
}

#[test]
fn variable_without_default_is_prompted_once() {
    let (e, _) = Engine::new(config(), options("/tmp/out/demo", Some("t"), true));
    let (e, _) = e.step(Reply::Exists(true));
    let (e, _) = e.step(Reply::Exists(true));
    let (e, r) = e.step(Reply::Text(Some("[variables.author]\nprompt = \"Who?\"\n".to_string())));
    assert!(matches!(r, Request::Prompt(ref label) if label == "Who?"), "{:?}", r);
    assert_eq!(e.phase(), Phase::Prompt);
    let (e, r) = e.step(Reply::Line(Some("Grace".to_string())));
    assert!(matches!(r, Request::LoadResources(_)), "{:?}", r);
    assert_eq!(e.bindings().get("author"), Some(&"Grace".to_string()));
    assert_eq!(e.bindings().len(), 4);
}

#[test]
fn unavailable_operator_ends_the_run() {
    let (e, _) = Engine::new(config(), options("/tmp/out/demo", Some("t"), true));
    let (e, _) = e.step(Reply::Exists(true));
    let (e, _) = e.step(Reply::Exists(true));
    let (e, _) = e.step(Reply::Text(Some("[variables.author]\n".to_string())));
    let (_, r) = e.step(Reply::Line(None));
    assert!(matches!(r, Request::Finish(Err(ApplyError::PromptFailure))), "{:?}", r);
}

#[test]
fn template_without_descriptor_is_applied() {
    let e = walking(None, Vec::new());
    assert_eq!(e.bindings().len(), 3);
    assert_eq!(e.bindings().get("project_name"), Some(&"demo".to_string()));
    let (_, r) = e.step(entry("README", "{{full_name}} {{license}}"));
    match r {
        Request::Write(output) => {
            assert_eq!(output.path, "/tmp/out/demo/README");
            assert_eq!(output.text, "Ada MIT");
        }
        other => panic!("unexpected: {:?}", other),
    }
}

#[test]
fn descriptor_file_is_never_rendered() {
    let e = walking(None, Vec::new());
    let (e, r) = e.step(entry("template.toml", "[variables]\n"));
    assert!(matches!(r, Request::NextEntry(_)), "{:?}", r);
    assert_eq!(e.phase(), Phase::Walk);
    let (e, r) = e.step(entry("sub/template.toml", "x"));
    assert!(matches!(r, Request::NextEntry(_)), "{:?}", r);
    let (_, r) = e.step(entry(".git/config", "x"));
    assert!(matches!(r, Request::NextEntry(_)), "{:?}", r);
}

#[test]
fn unreadable_entry_is_skipped() {
    let e = walking(None, Vec::new());
    let (e, r) = e.step(Reply::Unreadable("permission denied".to_string()));
    assert!(matches!(r, Request::NextEntry(ref p) if p == "/repo/templates/t"), "{:?}", r);
    assert_eq!(e.phase(), Phase::Walk);
}

#[test]
fn snippets_are_handed_to_include_file() {
    let e = walking(
        None,
        vec![
            ("greeting.txt".to_string(), "Hello".to_string()),
            ("greeting.txt".to_string(), "Hi".to_string()),
        ],
    );
    let (_, r) = e.step(entry(
        "a.txt",
        "{{include_file \"greeting.txt\"}}/{{include_file \"missing.txt\"}}",
    ));
    match r {
        Request::Write(output) => assert_eq!(output.text, "Hi/NOT EXISTS"),
        other => panic!("unexpected: {:?}", other),
    }
}

#[test]
fn broken_path_ends_the_run() {
    let e = walking(None, Vec::new());
    let (e, r) = e.step(entry("{{#if}}", "x"));
    assert!(
        matches!(r, Request::Finish(Err(ApplyError::Render(RenderFailure::Path(_))))),
        "{:?}",
        r
    );
    assert_eq!(e.phase(), Phase::Done);
}

#[test]
fn broken_text_ends_the_run() {
    let e = walking(None, Vec::new());
    let (_, r) = e.step(entry("a", "{{include_resource}}"));
    match r {
        Request::Finish(outcome) => {
            assert!(matches!(
                outcome,
                Err(ApplyError::Render(RenderFailure::Content(TemplateError::Renderer(ref m)))) if m == "A"
            ));
            assert_eq!(exit_status(&outcome), 1);
        }
        other => panic!("unexpected: {:?}", other),
    }
}

#[test]
fn escaping_path_ends_the_run() {
    let e = walking(Some("[variables]\nwhere = \"../../etc\"\n"), Vec::new());
    let (_, r) = e.step(entry("{{where}}/passwd", "x"));
    assert!(
        matches!(r, Request::Finish(Err(ApplyError::PathEscapes(ref p))) if p == "../../etc/passwd"),
        "{:?}",
        r
    );
}

#[test]
fn failed_write_ends_the_run() {
    let e = walking(None, Vec::new());
    let (e, _) = e.step(entry("a", "x"));
    let (_, r) = e.step(Reply::WriteFailed("disk full".to_string()));
    match r {
        Request::Finish(outcome) => {
            assert!(matches!(outcome, Err(ApplyError::Write(ref m)) if m == "disk full"));
            assert_eq!(exit_status(&outcome), 1);
        }
        other => panic!("unexpected: {:?}", other),
    }
}

#[test]
fn reply_out_of_turn_ends_the_run() {
    let (e, _) = Engine::new(config(), options("/tmp/out", Some("t"), false));
    let (e, r) = e.step(Reply::Written);
    assert!(matches!(r, Request::Finish(Err(ApplyError::Protocol))), "{:?}", r);
    assert_eq!(e.phase(), Phase::Done);
}

#[test]
fn two_runs_over_the_same_input_ask_and_write_the_same() {
    let run = || {
        let e = walking(Some("[variables]\nkind = \"lib\"\n"), Vec::new());
        let (_, r) = e.step(entry("{{kind}}/{{project_name}}.txt", "{{license}} {{kind}}"));
        match r {
            Request::Write(output) => (output.path, output.text),
            other => panic!("unexpected: {:?}", other),
        }
    };
    let first = run();
    assert_eq!(first, ("/tmp/out/demo/lib/demo.txt".to_string(), "MIT lib".to_string()));
    assert_eq!(first, run());
}

#[test]
fn built_in_configuration_names_the_author() {
    let config = get_config().unwrap();
    let (e, _) = Engine::new(config, options("/tmp/x", Some("t"), true));
    let (e, _) = e.step(Reply::Exists(true));
    let (e, _) = e.step(Reply::Exists(true));
    let (e, _) = e.step(Reply::Text(None));
    assert_eq!(e.bindings().get("full_name"), Some(&"Edwin Kofler".to_string()));
    assert_eq!(e.bindings().get("license"), Some(&"MPL-2.0".to_string()));
    assert_eq!(e.bindings().get("project_name"), Some(&"x".to_string()));
}

#[test]
fn only_apply_starts_a_run() {
    let o = Options::from_command(Cmd::Apply {
        target_dir: "/tmp/x".to_string(),
        template_name: Some("t".to_string()),
        force: true,
        watch: true,
    })
    .unwrap();
    assert_eq!(o.target_dir, "/tmp/x");
    assert_eq!(o.template_name, Some("t".to_string()));
    assert!(o.force);
    assert!(o.must_exist);
    assert!(Options::from_command(Cmd::ApplyAll {}).is_none());
    assert!(Options::from_command(Cmd::Edit { template_name: None }).is_none());
    assert!(Options::from_command(Cmd::List {}).is_none());
}

#[test]
fn every_template_gets_a_run_of_its_own() {
    let runs = plan(vec!["rust".to_string(), "go".to_string()]);
    assert_eq!(runs.len(), 2);
    assert_eq!(runs[0].target_dir, "/home/edwin/groups/fox-templates/rust");
    assert_eq!(runs[0].template_name, Some("rust".to_string()));
    assert!(runs[0].force);
    assert!(!runs[0].must_exist);
    assert_eq!(runs[1].target_dir, "/home/edwin/groups/fox-templates/go");
    assert_eq!(runs[1].template_name, Some("go".to_string()));
    assert!(plan(Vec::new()).is_empty());
}

#[test]
fn every_failure_has_its_message() {
    let cases: Vec<(ApplyError, &str)> = vec![
        (ApplyError::TargetMissing("/x".to_string()), "Target directory does not exist: /x"),
        (ApplyError::TemplateMissing("/t".to_string()), "Template could not be found: '/t'"),
        (ApplyError::OverwriteDeclined, "exiting..."),
        (
            ApplyError::Descriptor(DescriptorParseError::Syntax("bad".to_string())),
            "Failed to read template.toml: bad",
        ),
        (
            ApplyError::Descriptor(DescriptorParseError::MissingVariables),
            "Failed to read template.toml: missing table `variables`",
        ),
        (
            ApplyError::Descriptor(DescriptorParseError::Entry("n".to_string())),
            "Failed to read template.toml: malformed declaration of 'n'",
        ),
        (ApplyError::PromptFailure, "Failed to read an answer"),
        (
            ApplyError::Render(RenderFailure::Path(TemplateError::Renderer("p".to_string()))),
            "Failed to render path: p",
        ),
        (
            ApplyError::Render(RenderFailure::Content(TemplateError::Renderer("c".to_string()))),
            "Failed to render text: c",
        ),
        (
            ApplyError::Render(RenderFailure::Path(TemplateError::NotPlain)),
            "Failed to render path: template is not plain",
        ),
        (ApplyError::Cancelled, "No template was picked"),
        (ApplyError::PathEscapes("../x".to_string()), "Path leaves the target directory: ../x"),
        (ApplyError::Write("full".to_string()), "Failed to write: full"),
        (ApplyError::Protocol, "Failed to run templater"),
    ];
    for (error, message) in cases {
        assert_eq!(error.describe(), message);
    }
}

#[test]
fn batch_run_does_not_ask_for_the_target() {
    let mut runs = plan(vec!["rust".to_string()]);
    let (e, r) = Engine::new(config(), runs.remove(0));
    assert!(matches!(r, Request::CheckTemplate(ref p) if p == "/repo/templates/rust"), "{:?}", r);
    assert_eq!(e.phase(), Phase::CheckTemplate);
    let (e, r) = e.step(Reply::Exists(true));
    assert!(
        matches!(r, Request::ReadDescriptor(ref p) if p == "/repo/templates/rust/template.toml"),
        "{:?}",
        r
    );
    assert!(e.agreed());
}

#[test]
fn run_without_target_check_and_without_name_lists_the_templates() {
    let o = Options {
        target_dir: "/tmp/out".to_string(),
        template_name: None,
        force: false,
        must_exist: false,
    };
    let (e, r) = Engine::new(config(), o);
    assert!(matches!(r, Request::ListTemplates(ref p) if p == "/repo/templates"), "{:?}", r);
    assert_eq!(e.phase(), Phase::ListTemplates);
}

#[test]
fn template_that_calls_itself_ends_the_run() {
    let e = walking(None, Vec::new());
    let (e, r) = e.step(entry("a", "{{#*inline \"a\"}}{{> a}}{{/inline}}{{> a}}"));
    match r {
        Request::Finish(outcome) => {
            assert!(matches!(
                outcome,
                Err(ApplyError::Render(RenderFailure::Content(TemplateError::NotPlain)))
            ));
            assert_eq!(
                outcome.as_ref().unwrap_err().describe(),
                "Failed to render text: template is not plain"
            );
            assert_eq!(exit_status(&outcome), 1);
        }
        other => panic!("unexpected: {:?}", other),
    }
    assert_eq!(e.phase(), Phase::Done);
}

#[test]
fn leaving_the_list_of_templates_ends_the_run() {
    let (e, _) = Engine::new(config(), options("/tmp/out", None, true));
    let (e, _) = e.step(Reply::Exists(true));
    let (e, r) = e.step(Reply::Names(Some(vec!["rust".to_string()])));
    assert!(matches!(r, Request::ChooseTemplate(_)), "{:?}", r);
    let (e, r) = e.step(Reply::Chosen(None));
    match r {
        Request::Finish(outcome) => {
            assert!(matches!(outcome, Err(ApplyError::Cancelled)));
            assert_eq!(exit_status(&outcome), 1);
        }
        other => panic!("unexpected: {:?}", other),
    }
    assert_eq!(e.phase(), Phase::Done);
    assert!(!e.agreed());
}

#[test]
fn comment_escape_and_raw_block_are_rendered_in_a_run() {
    let e = walking(None, Vec::new());
    let (_, r) = e.step(entry(
        "a",
        "{{! who }}{{full_name}} \\{{x}} {{{license}}} {{{{raw}}}}{{y}}{{{{/raw}}}}{{!-- {{z}} --}}",
    ));
    match r {
        Request::Write(output) => assert_eq!(output.text, "Ada {{x}} MIT {{y}}"),
        other => panic!("unexpected: {:?}", other),
    }
}
