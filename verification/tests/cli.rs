use oscript::{bind_signature, oscript_async_main, oscript_main};
use oscript::completion::render_completion;
use oscript::convert::BoundValue;
use oscript::dispatch::{dispatch_invocation, HarnessAction};
use oscript::errors::{BuildError, ParseError};
use oscript::param::{DeclaredParameter, DeclaredType, ParamPattern, ScalarType};
use oscript::parse::{parse_arguments, ParsedInvocation};
use oscript::schema::{extract_signature, PackageMetadata};
use oscript::{BoundProgram, ExecutionMode};

fn meta() -> PackageMetadata {
    PackageMetadata {
        name: "demo".to_string(),
        version: "0.1.0".to_string(),
        author: "a developer".to_string(),
    }
}

fn plain(name: &str, ty: DeclaredType) -> DeclaredParameter {
    DeclaredParameter {
        pattern: ParamPattern::Identifier(name.to_string()),
        declared_type: ty,
        flag_override: None,
        help_override: None,
        required_override: None,
        doc_text: None,
    }
}

fn example_params() -> Vec<DeclaredParameter> {
    vec![
        plain("name", DeclaredType::Reference),
        plain("flag", DeclaredType::Plain(ScalarType::BoolTy)),
        plain("count", DeclaredType::OptionOf(ScalarType::IntTy)),
    ]
}

fn bind(params: Vec<DeclaredParameter>, declared_async: bool, concurrency: bool) -> BoundProgram {
    let sig = extract_signature("main".to_string(), &params, declared_async, Vec::new()).unwrap();
    bind_signature(&sig, meta(), concurrency).unwrap()
}

fn argv(tokens: &[&str]) -> Vec<String> {
    tokens.iter().map(|t| t.to_string()).collect()
}

#[test]
fn schema_has_one_field_per_parameter_in_order() {
    let program = bind(example_params(), false, false);
    let fields = &program.schema.primary.fields;
    assert_eq!(fields.len(), 3);
    assert_eq!(fields[0].name, "name");
    assert_eq!(fields[1].name, "flag");
    assert_eq!(fields[2].name, "count");
    assert_eq!(fields[0].flag, "name");
    assert!(fields[0].required);
    assert!(!fields[1].required);
    assert!(!fields[2].required);
}

#[test]
fn scalar_int_round_trip() {
    let program = bind(vec![plain("count", DeclaredType::Plain(ScalarType::IntTy))], false, false);
    let action = dispatch_invocation(
        &program,
        &argv(&["run", "--count", "42"]),
    );
    match action {
        HarnessAction::RunPrimary { bindings, .. } => {
            assert!(matches!(bindings[0], BoundValue::IntBinding(42)));
        }
        _ => panic!("expected the primary branch"),
    }
}

#[test]
fn optional_field_omitted_and_supplied() {
    let program = bind(vec![plain("count", DeclaredType::OptionOf(ScalarType::IntTy))], false, false);
    let omitted = dispatch_invocation(&program, &argv(&["run"]));
    match omitted {
        HarnessAction::RunPrimary { bindings, .. } => {
            assert!(matches!(bindings[0], BoundValue::OptionalInt(None)));
        }
        _ => panic!("expected the primary branch"),
    }
    let supplied = dispatch_invocation(&program, &argv(&["run", "--count", "7"]));
    match supplied {
        HarnessAction::RunPrimary { bindings, .. } => {
            assert!(matches!(bindings[0], BoundValue::OptionalInt(Some(7))));
        }
        _ => panic!("expected the primary branch"),
    }
}

#[test]
fn text_ref_is_exposed_as_borrowed_view() {
    let program = bind(vec![plain("name", DeclaredType::Reference)], false, false);
    let action = dispatch_invocation(
        &program,
        &argv(&["run", "--name", "Alice"]),
    );
    match action {
        HarnessAction::RunPrimary { bindings, .. } => {
            let view: &str = bindings[0].text_ref();
            assert_eq!(view, "Alice");
        }
        _ => panic!("expected the primary branch"),
    }
}

#[test]
fn async_without_concurrency_is_fatal_at_build_time() {
    let sig = extract_signature("main".to_string(), &example_params(), true, Vec::new()).unwrap();
    let r = bind_signature(&sig, meta(), false);
    match r {
        Err(BuildError::AsyncWithoutConcurrency) => {}
        _ => panic!("expected the async-without-concurrency error"),
    }
    let sig2 = extract_signature("main".to_string(), &Vec::new(), true, Vec::new()).unwrap();
    match bind_signature(&sig2, meta(), false) {
        Err(e) => assert_eq!(
            e.message(),
            "function is declared asynchronous but concurrency was not requested"
        ),
        Ok(_) => panic!("expected a build error"),
    }
}

#[test]
fn sync_with_concurrency_is_promoted_to_cooperative_task() {
    let sig = extract_signature("main".to_string(), &example_params(), false, Vec::new()).unwrap();
    let program = bind_signature(&sig, meta(), true).unwrap();
    assert_eq!(program.mode, ExecutionMode::CooperativeTask);
    assert!(program.implicit_promotion);
    let empty = extract_signature("main".to_string(), &Vec::new(), false, Vec::new()).unwrap();
    let p2 = bind_signature(&empty, meta(), true).unwrap();
    assert_eq!(p2.mode, ExecutionMode::CooperativeTask);
}

#[test]
fn async_with_concurrency_selects_cooperative_task() {
    let sig = extract_signature("main".to_string(), &example_params(), true, Vec::new()).unwrap();
    let program = bind_signature(&sig, meta(), true).unwrap();
    assert_eq!(program.mode, ExecutionMode::CooperativeTask);
    assert!(!program.implicit_promotion);
}

#[test]
fn sync_without_concurrency_stays_sync() {
    let program = bind(example_params(), false, false);
    assert_eq!(program.mode, ExecutionMode::Sync);
    assert!(!program.implicit_promotion);
}

#[test]
fn registration_entry_points_agree_with_the_policy() {
    let sync_sig =
        extract_signature("main".to_string(), &example_params(), false, Vec::new()).unwrap();
    let plain = oscript_main(&sync_sig, meta(), false).unwrap();
    assert_eq!(plain.mode, ExecutionMode::Sync);
    let promoted = oscript_main(&sync_sig, meta(), true).unwrap();
    assert_eq!(promoted.mode, ExecutionMode::CooperativeTask);
    assert!(promoted.implicit_promotion);
    let async_sig =
        extract_signature("main".to_string(), &example_params(), true, Vec::new()).unwrap();
    assert!(matches!(
        oscript_main(&async_sig, meta(), false),
        Err(BuildError::AsyncWithoutConcurrency)
    ));
    let tasked = oscript_async_main(&async_sig, meta()).unwrap();
    assert_eq!(tasked.mode, ExecutionMode::CooperativeTask);
    assert!(!tasked.implicit_promotion);
}

#[test]
fn completion_bash_emits_nonempty_script() {
    let program = bind(example_params(), false, false);
    let action = dispatch_invocation(
        &program,
        &argv(&["completion", "--shell", "bash"]),
    );
    match action {
        HarnessAction::EmitCompletion { script } => {
            assert!(!script.is_empty());
            let text = String::from_utf8(script).unwrap();
            assert!(text.contains("demo"));
        }
        _ => panic!("expected the completion branch"),
    }
}

#[test]
fn every_supported_shell_renders() {
    let program = bind(example_params(), false, false);
    for shell in ["bash", "elvish", "fish", "powershell", "zsh"] {
        let script = render_completion(&program.schema, &shell.to_string()).unwrap();
        assert!(!script.is_empty());
    }
}

#[test]
fn completion_unknown_shell_fails_without_output() {
    let program = bind(example_params(), false, false);
    let action = dispatch_invocation(
        &program,
        &argv(&["completion", "--shell", "unknown-shell"]),
    );
    match action {
        HarnessAction::Fatal { message } => {
            assert_eq!(message, "unsupported shell: unknown-shell");
        }
        _ => panic!("expected a fatal action"),
    }
    let r = render_completion(&program.schema, &"Bash".to_string());
    assert!(r.is_err());
}

#[test]
fn example_invocation_binds_all_three_parameters() {
    let program = bind(example_params(), false, false);
    let action = dispatch_invocation(
        &program,
        &argv(&["run", "--name", "Alice", "--flag"]),
    );
    match action {
        HarnessAction::RunPrimary { bindings, mode } => {
            assert_eq!(mode, ExecutionMode::Sync);
            assert_eq!(bindings[0].text_ref(), "Alice");
            assert!(matches!(bindings[1], BoundValue::BoolBinding(true)));
            assert!(matches!(bindings[2], BoundValue::OptionalInt(None)));
        }
        _ => panic!("expected the primary branch"),
    }
}

#[test]
fn missing_required_argument_is_a_parse_error() {
    let program = bind(example_params(), false, false);
    let action = dispatch_invocation(&program, &argv(&["run", "--flag"]));
    match action {
        HarnessAction::Fatal { message } => {
            assert_eq!(message, "missing required argument: name");
        }
        _ => panic!("expected a fatal action"),
    }
}

#[test]
fn bool_field_defaults_to_false_when_absent() {
    let program = bind(example_params(), false, false);
    let action = dispatch_invocation(
        &program,
        &argv(&["run", "--name", "Bob"]),
    );
    match action {
        HarnessAction::RunPrimary { bindings, .. } => {
            assert!(matches!(bindings[1], BoundValue::BoolBinding(false)));
        }
        _ => panic!("expected the primary branch"),
    }
}

#[test]
fn malformed_int_value_is_a_parse_error() {
    let program = bind(vec![plain("count", DeclaredType::Plain(ScalarType::IntTy))], false, false);
    let action = dispatch_invocation(
        &program,
        &argv(&["run", "--count", "abc"]),
    );
    match action {
        HarnessAction::Fatal { message } => {
            assert_eq!(message, "invalid value for argument: count: abc");
        }
        _ => panic!("expected a fatal action"),
    }
}

#[test]
fn int_bounds_parse_exactly() {
    let program = bind(vec![plain("count", DeclaredType::Plain(ScalarType::IntTy))], false, false);
    let ok = dispatch_invocation(
        &program,
        &argv(&["run", "--count", "-9223372036854775808"]),
    );
    match ok {
        HarnessAction::RunPrimary { bindings, .. } => {
            assert!(matches!(bindings[0], BoundValue::IntBinding(i64::MIN)));
        }
        _ => panic!("expected the primary branch"),
    }
    let over = dispatch_invocation(
        &program,
        &argv(&["run", "--count", "9223372036854775808"]),
    );
    assert!(matches!(over, HarnessAction::Fatal { .. }));
    let plus = dispatch_invocation(&program, &argv(&["run", "--count", "+42"]));
    match plus {
        HarnessAction::RunPrimary { bindings, .. } => {
            assert!(matches!(bindings[0], BoundValue::IntBinding(42)));
        }
        _ => panic!("expected the primary branch"),
    }
}

#[test]
fn enumerated_field_accepts_tokens_verbatim() {
    let fruit = DeclaredType::Enumeration(vec!["Apple".to_string(), "Banana".to_string()]);
    let program = bind(vec![plain("fruit", fruit)], false, false);
    let picked = dispatch_invocation(
        &program,
        &argv(&["run", "--fruit", "Banana"]),
    );
    match picked {
        HarnessAction::RunPrimary { bindings, .. } => match &bindings[0] {
            BoundValue::ChoiceBinding(token) => assert_eq!(token, "Banana"),
            _ => panic!("expected a choice binding"),
        },
        _ => panic!("expected the primary branch"),
    }
    let wrong = dispatch_invocation(
        &program,
        &argv(&["run", "--fruit", "banana"]),
    );
    match wrong {
        HarnessAction::Fatal { message } => {
            assert_eq!(message, "invalid choice for argument: fruit: banana");
        }
        _ => panic!("expected a fatal action"),
    }
}

#[test]
fn unknown_flag_duplicate_flag_and_missing_value() {
    let program = bind(example_params(), false, false);
    let unknown = parse_arguments(&program.schema, &argv(&["run", "--nope"]));
    match unknown {
        Err(ParseError::UnknownFlag { token }) => assert_eq!(token, "--nope"),
        _ => panic!("expected an unknown-flag error"),
    }
    let duplicate = parse_arguments(
        &program.schema,
        &argv(&["run", "--name", "a", "--name", "b"]),
    );
    match duplicate {
        Err(ParseError::DuplicateFlag { token }) => assert_eq!(token, "--name"),
        _ => panic!("expected a duplicate-flag error"),
    }
    let missing = parse_arguments(&program.schema, &argv(&["run", "--name"]));
    match missing {
        Err(ParseError::MissingValue { flag }) => assert_eq!(flag, "name"),
        _ => panic!("expected a missing-value error"),
    }
}

#[test]
fn operation_selection_errors() {
    let program = bind(example_params(), false, false);
    assert!(matches!(
        parse_arguments(&program.schema, &Vec::new()),
        Err(ParseError::MissingOperation)
    ));
    match parse_arguments(&program.schema, &argv(&["frobnicate"])) {
        Err(ParseError::UnknownOperation { token }) => assert_eq!(token, "frobnicate"),
        _ => panic!("expected an unknown-operation error"),
    }
    match parse_arguments(&program.schema, &argv(&["completion"])) {
        Err(ParseError::MissingRequired { name }) => assert_eq!(name, "shell"),
        _ => panic!("expected a missing-required error"),
    }
}

#[test]
fn completion_parse_selects_completion_operation() {
    let program = bind(example_params(), false, false);
    match parse_arguments(&program.schema, &argv(&["completion", "--shell", "zsh"])) {
        Ok(ParsedInvocation::Completion { shell }) => assert_eq!(shell, "zsh"),
        _ => panic!("expected the completion operation"),
    }
}

#[test]
fn wrong_entry_name_is_a_build_error() {
    let sig = extract_signature("start".to_string(), &example_params(), false, Vec::new()).unwrap();
    match bind_signature(&sig, meta(), false) {
        Err(BuildError::WrongEntryName { actual }) => assert_eq!(actual, "start"),
        _ => panic!("expected the wrong-entry-name error"),
    }
}

#[test]
fn duplicate_parameter_name_is_a_build_error() {
    let params = vec![
        plain("x", DeclaredType::Plain(ScalarType::IntTy)),
        plain("x", DeclaredType::Reference),
    ];
    let sig = extract_signature("main".to_string(), &params, false, Vec::new()).unwrap();
    match bind_signature(&sig, meta(), false) {
        Err(BuildError::DuplicateParameterName { name }) => assert_eq!(name, "x"),
        _ => panic!("expected the duplicate-name error"),
    }
}

#[test]
fn duplicate_flag_from_override_is_a_build_error() {
    let mut first = plain("alpha", DeclaredType::Plain(ScalarType::IntTy));
    first.flag_override = Some("same".to_string());
    let mut second = plain("beta", DeclaredType::Reference);
    second.flag_override = Some("same".to_string());
    let sig =
        extract_signature("main".to_string(), &vec![first, second], false, Vec::new()).unwrap();
    match bind_signature(&sig, meta(), false) {
        Err(BuildError::DuplicateFlagName { flag }) => assert_eq!(flag, "same"),
        _ => panic!("expected the duplicate-flag error"),
    }
}

#[test]
fn unsupported_parameter_form_is_a_build_error() {
    let mut bad = plain("ignored", DeclaredType::Reference);
    bad.pattern = ParamPattern::Unsupported;
    let params = vec![plain("good", DeclaredType::Reference), bad];
    match extract_signature("main".to_string(), &params, false, Vec::new()) {
        Err(BuildError::UnsupportedParameterForm { position }) => assert_eq!(position, 1),
        _ => panic!("expected the unsupported-parameter-form error"),
    }
}

#[test]
fn contradictory_required_override_is_a_build_error() {
    let mut p = plain("count", DeclaredType::OptionOf(ScalarType::IntTy));
    p.required_override = Some(true);
    match extract_signature("main".to_string(), &vec![p], false, Vec::new()) {
        Err(BuildError::ContradictoryRequiredOverride { name }) => assert_eq!(name, "count"),
        _ => panic!("expected the contradictory-override error"),
    }
    let mut agreeing = plain("fruit", DeclaredType::Enumeration(vec!["Apple".to_string()]));
    agreeing.required_override = Some(true);
    assert!(extract_signature("main".to_string(), &vec![agreeing], false, Vec::new()).is_ok());
}

#[test]
fn doc_lines_become_about_text_joined_with_newlines() {
    let sig = extract_signature(
        "main".to_string(),
        &example_params(),
        false,
        vec!["This is a very fancy script.".to_string(), "Second line.".to_string()],
    )
    .unwrap();
    let program = bind_signature(&sig, meta(), false).unwrap();
    assert_eq!(
        program.schema.primary.about.as_deref(),
        Some("This is a very fancy script.\nSecond line.")
    );
    assert!(bind(example_params(), false, false).schema.primary.about.is_none());
}

#[test]
fn help_text_falls_back_to_doc_text() {
    let mut p = plain("flag", DeclaredType::Plain(ScalarType::BoolTy));
    p.doc_text = Some("If no tag then by default you get a long flag".to_string());
    let mut q = plain("name", DeclaredType::Reference);
    q.help_override = Some("explicit help".to_string());
    q.doc_text = Some("shadowed".to_string());
    let sig = extract_signature("main".to_string(), &vec![p, q], false, Vec::new()).unwrap();
    let program = bind_signature(&sig, meta(), false).unwrap();
    let fields = &program.schema.primary.fields;
    assert_eq!(
        fields[0].help.as_deref(),
        Some("If no tag then by default you get a long flag")
    );
    assert_eq!(fields[1].help.as_deref(), Some("explicit help"));
}

#[test]
fn optional_bool_and_text_take_explicit_values() {
    let params = vec![
        plain("maybe", DeclaredType::OptionOf(ScalarType::BoolTy)),
        plain("label", DeclaredType::OptionOf(ScalarType::TextTy)),
    ];
    let program = bind(params, false, false);
    let action = dispatch_invocation(
        &program,
        &argv(&["run", "--maybe", "true", "--label", "hi"]),
    );
    match action {
        HarnessAction::RunPrimary { bindings, .. } => {
            assert!(matches!(bindings[0], BoundValue::OptionalBool(Some(true))));
            match &bindings[1] {
                BoundValue::OptionalText(Some(s)) => assert_eq!(s, "hi"),
                _ => panic!("expected a wrapped text binding"),
            }
        }
        _ => panic!("expected the primary branch"),
    }
    let both_omitted = dispatch_invocation(&program, &argv(&["run"]));
    match both_omitted {
        HarnessAction::RunPrimary { bindings, .. } => {
            assert!(matches!(bindings[0], BoundValue::OptionalBool(None)));
            assert!(matches!(bindings[1], BoundValue::OptionalText(None)));
        }
        _ => panic!("expected the primary branch"),
    }
    let bad = dispatch_invocation(
        &program,
        &argv(&["run", "--maybe", "yes"]),
    );
    match bad {
        HarnessAction::Fatal { message } => {
            assert_eq!(message, "invalid value for argument: maybe: yes");
        }
        _ => panic!("expected a fatal action"),
    }
}

#[test]
fn flag_override_renames_the_flag() {
    let mut p = plain("some_required_string", DeclaredType::Reference);
    p.flag_override = Some("text".to_string());
    let program = bind(vec![p], false, false);
    let action = dispatch_invocation(
        &program,
        &argv(&["run", "--text", "hello"]),
    );
    match action {
        HarnessAction::RunPrimary { bindings, .. } => {
            assert_eq!(bindings[0].text_ref(), "hello");
        }
        _ => panic!("expected the primary branch"),
    }
}

#[test]
fn help_surface_renders_for_top_level_and_run() {
    let program = bind(example_params(), false, false);
    for args in [vec!["--help"], vec!["-h"], vec!["run", "--help"], vec!["run", "--name", "-h"]] {
        match dispatch_invocation(&program, &argv(&args)) {
            HarnessAction::EmitHelp { text } => {
                let rendered = String::from_utf8(text).unwrap();
                assert!(rendered.contains("run"));
                assert!(rendered.contains("completion"));
            }
            _ => panic!("expected the help surface"),
        }
    }
}

#[test]
fn version_surface_renders_name_and_version() {
    let program = bind(example_params(), false, false);
    for args in [vec!["--version"], vec!["-V"], vec!["run", "--version"]] {
        match dispatch_invocation(&program, &argv(&args)) {
            HarnessAction::EmitVersion { text } => assert_eq!(text, "demo 0.1.0\n"),
            _ => panic!("expected the version surface"),
        }
    }
}

#[test]
fn malformed_or_reserved_flags_are_build_errors() {
    let dashed = plain("-bad", DeclaredType::Reference);
    let sig = extract_signature("main".to_string(), &vec![dashed], false, Vec::new()).unwrap();
    match bind_signature(&sig, meta(), false) {
        Err(BuildError::MalformedFlag { flag }) => assert_eq!(flag, "-bad"),
        _ => panic!("expected the malformed-flag error"),
    }
    let mut reserved = plain("quiet", DeclaredType::Reference);
    reserved.flag_override = Some("help".to_string());
    let sig2 = extract_signature("main".to_string(), &vec![reserved], false, Vec::new()).unwrap();
    match bind_signature(&sig2, meta(), false) {
        Err(BuildError::MalformedFlag { flag }) => assert_eq!(flag, "help"),
        _ => panic!("expected the malformed-flag error"),
    }
}

#[test]
fn completion_script_offers_choice_tokens() {
    let fruit = DeclaredType::Enumeration(vec!["Apple".to_string(), "Banana".to_string()]);
    let program = bind(vec![plain("fruit", fruit)], false, false);
    let script = render_completion(&program.schema, &"bash".to_string()).unwrap();
    let text = String::from_utf8(script).unwrap();
    assert!(text.contains("Apple"));
    assert!(text.contains("Banana"));
}
