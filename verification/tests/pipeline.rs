use inline_proc::identity::HostPackage;
use inline_proc::inline_proc;
use inline_proc::invoke::HandleCache;
use inline_proc::invoke::InvocationError;
use inline_proc::invoke::InvocationRequest;
use inline_proc::invoke::InvocationResult;
use inline_proc::invoke::RawCallOutcome;
use inline_proc::invoke::interpret_call_outcome;
use inline_proc::invoke_inline_macro;
use inline_proc::metadata::ExportEntry;
use inline_proc::metadata::MacroKind;
use inline_proc::metadata::RawExportEntry;
use inline_proc::metadata::RawExportValue;
use inline_proc::metadata::RawExports;
use inline_proc::metadata::RawMetadata;
use inline_proc::orchestrator::BuildRegistry;
use inline_proc::orchestrator::BuildResult;
use inline_proc::orchestrator::Diagnostic;
use inline_proc::orchestrator::RawBuildOutcome;
use inline_proc::orchestrator::Severity;
use inline_proc::orchestrator::build_args;
use inline_proc::orchestrator::interpret_build_outcome;
use inline_proc::sugar::AnnotatedItem;
use inline_proc::sugar::GroupDelim;
use inline_proc::sugar::ItemAttribute;
use inline_proc::sugar::SugarError;
use inline_proc::sugar::Token;
use inline_proc::sugar::inline_attr;
use inline_proc::sugar::inline_derive;
use inline_proc::wrapper::generate;
use inline_proc::wrapper::wrapper_invocation;

fn raw_one_bang(name: &str, function: &str, export: bool) -> RawMetadata {
    RawMetadata {
        cargo_path: None,
        color: None,
        clippy: None,
        edition: Some("2021".to_string()),
        dependencies: None,
        inline_proc_path: None,
        exports: Some(RawExports {
            bang_macros: vec![RawExportEntry {
                name: name.to_string(),
                value: RawExportValue::Full { function: function.to_string(), export },
            }],
            derives: Vec::new(),
            attributes: Vec::new(),
        }),
        unknown_options: Vec::new(),
    }
}

fn host() -> HostPackage {
    HostPackage { name: "host-crate".to_string(), major: 1, minor: 4, patch: 2 }
}

#[test]
fn module_expansion_layout() {
    let raw = raw_one_bang("m", "f", false);
    let ex = inline_proc(&host(), "my_mod", &raw, "pub fn f() {}\n", "/tmp").unwrap();
    assert_eq!(ex.synthesized.root_path.as_str(), "/tmp/inline-proc-crates/host-crate-1.4-my_mod");
    assert_eq!(ex.synthesized.prelude_lines, 1);
    assert_eq!(
        ex.synthesized.source_text.as_str(),
        "inline_proc_support::entry_point!(f);\npub fn f() {}\n"
    );
    assert!(ex.synthesized.manifest_text.as_str().contains("name = \"host-crate-1.4-my_mod\""));
    assert!(ex.synthesized.manifest_text.as_str().contains("edition = \"2021\""));
    assert!(ex.synthesized.manifest_text.as_str().contains("crate-type = [\"dylib\"]"));
}

#[test]
fn manifest_copies_dependencies_verbatim() {
    let mut raw = raw_one_bang("m", "f", false);
    raw.dependencies = Some(vec![inline_proc::metadata::Dependency {
        name: "quote".to_string(),
        spec_text: "\"1\"".to_string(),
    }]);
    let ex = inline_proc(&host(), "my_mod", &raw, "", "/tmp").unwrap();
    assert!(ex.synthesized.manifest_text.as_str().ends_with("[dependencies]\nquote = \"1\"\n"));
}

#[test]
fn wrapper_generation_deterministic() {
    let entry = ExportEntry { name: "m".to_string(), function: "f".to_string(), exported: false };
    let a = generate(MacroKind::Bang, &entry, "/tmp/lib.so", &None);
    let b = generate(MacroKind::Bang, &entry, "/tmp/lib.so", &None);
    assert_eq!(a, b);
}

#[test]
fn wrapper_uses_crate_path_override() {
    let entry = ExportEntry { name: "m".to_string(), function: "f".to_string(), exported: false };
    let with_default = generate(MacroKind::Bang, &entry, "/a.so", &None);
    assert!(with_default.as_str().contains("::inline_proc::invoke_inline_macro!"));
    let with_override = generate(MacroKind::Bang, &entry, "/a.so", &Some("::renamed".to_string()));
    assert!(with_override.as_str().contains("::renamed::invoke_inline_macro!"));
}

#[test]
fn bang_wrapper_expands_to_one_invoker_call() {
    let entry = ExportEntry { name: "m".to_string(), function: "f".to_string(), exported: false };
    let req = wrapper_invocation(MacroKind::Bang, &entry, "/tmp/artifact.so", vec![
        "1 + 1".to_string(),
    ]);
    assert_eq!(req.artifact_path.as_str(), "/tmp/artifact.so");
    assert_eq!(req.symbol_name.as_str(), "f");
    assert_eq!(req.kind, MacroKind::Bang);
    assert_eq!(req.payload, vec!["1 + 1".to_string()]);
}

#[test]
fn local_wrapper_text() {
    let entry = ExportEntry { name: "m".to_string(), function: "f".to_string(), exported: false };
    let text = generate(MacroKind::Derive, &entry, "/a.so", &None);
    assert_eq!(
        text.as_str(),
        "macro_rules! m {\n    ($($tokens:tt)*) => {\n        \
         ::inline_proc::invoke_inline_macro!(\"/a.so\", \"f\", derive, $($tokens)*)\n    };\n}\n"
    );
}

#[test]
fn exported_bang_macro_takes_invoker_path_and_inner_name() {
    let entry = ExportEntry { name: "m".to_string(), function: "f".to_string(), exported: true };
    let text = generate(MacroKind::Bang, &entry, "/a.so", &None);
    assert_eq!(
        text.as_str(),
        "#[macro_export]\n#[doc(hidden)]\nmacro_rules! m_inner {\n    \
         ($invoker:path, $($tokens:tt)*) => {\n        \
         $invoker!(\"/a.so\", \"f\", bang, $($tokens)*)\n    };\n}\n"
    );
}

#[test]
fn build_args_shape() {
    let raw = raw_one_bang("m", "f", false);
    let ex = inline_proc(&host(), "my_mod", &raw, "", "/tmp").unwrap();
    let args = build_args(&ex.synthesized, false, true);
    let expected: Vec<String> = vec![
        "build".to_string(),
        "--manifest-path".to_string(),
        "/tmp/inline-proc-crates/host-crate-1.4-my_mod/Cargo.toml".to_string(),
        "--message-format=json".to_string(),
        "--color=always".to_string(),
    ];
    assert_eq!(args, expected);
    let lint = build_args(&ex.synthesized, true, false);
    assert_eq!(lint[0].as_str(), "clippy");
    assert_eq!(lint.len(), 4);
}

#[test]
fn lint_pass_precedes_build() {
    let raw = raw_one_bang("m", "f", false);
    let ex = inline_proc(&host(), "my_mod", &raw, "", "/tmp").unwrap();
    let runs = inline_proc::orchestrator::tool_invocations(&ex.synthesized, true, false);
    assert_eq!(runs.len(), 2);
    assert_eq!(runs[0][0].as_str(), "clippy");
    assert_eq!(runs[1][0].as_str(), "build");
    let only_build = inline_proc::orchestrator::tool_invocations(&ex.synthesized, false, false);
    assert_eq!(only_build.len(), 1);
    assert_eq!(only_build[0][0].as_str(), "build");
}

#[test]
fn failed_build_diagnostics_land_in_module_coordinates() {
    let raw_diags = vec![
        Diagnostic { severity: Severity::Error, message: "first".to_string(), line: 3, column: 5 },
        Diagnostic { severity: Severity::Warning, message: "second".to_string(), line: 1, column: 1 },
        Diagnostic { severity: Severity::Error, message: "third".to_string(), line: 99, column: 2 },
    ];
    // Two prelude lines were prepended; the module itself has 4 lines.
    let r = interpret_build_outcome(RawBuildOutcome::Rejected { diagnostics: raw_diags }, 2, 4);
    match r {
        BuildResult::Failure { diagnostics } => {
            assert_eq!(diagnostics.len(), 3);
            // Line 3 of the synthesized file is line 1 of the module.
            assert_eq!(diagnostics[0].line, 1);
            assert_eq!(diagnostics[0].message.as_str(), "first");
            assert_eq!(diagnostics[0].severity, Severity::Error);
            // A line inside the prelude anchors at the module start.
            assert_eq!(diagnostics[1].line, 1);
            // A line past the module's end anchors at the module start.
            assert_eq!(diagnostics[2].line, 1);
            for d in &diagnostics {
                assert!(d.line >= 1 && d.line <= 4);
            }
        }
        _ => panic!("expected a failure with diagnostics"),
    }
}

#[test]
fn tool_unavailable_is_distinct() {
    let r = interpret_build_outcome(RawBuildOutcome::FailedToStart, 0, 1);
    assert_eq!(r, BuildResult::ToolUnavailable);
    let ok = interpret_build_outcome(
        RawBuildOutcome::Produced { artifact_path: "/a.so".to_string() },
        0,
        1,
    );
    assert_eq!(ok, BuildResult::Success { artifact_path: "/a.so".to_string() });
}

#[test]
fn one_build_per_identity() {
    let mut reg = BuildRegistry::new();
    let id = "host-crate-1.4-my_mod".to_string();
    assert!(reg.begin_build(&id));
    // A second expansion of the same identity reuses the first pipeline run.
    assert!(!reg.begin_build(&id));
    assert_eq!(reg.reuse_artifact(&id), None);
    reg.finish_build(&id, "/tmp/artifact.so".to_string());
    assert!(!reg.begin_build(&id));
    assert_eq!(reg.reuse_artifact(&id), Some("/tmp/artifact.so".to_string()));
    // A different identity still builds.
    let other = "host-crate-1.5-my_mod".to_string();
    assert!(reg.begin_build(&other));
}

#[test]
fn artifact_loaded_once() {
    let mut cache = HandleCache::new();
    let req = InvocationRequest {
        artifact_path: "/tmp/a.so".to_string(),
        symbol_name: "f".to_string(),
        kind: MacroKind::Bang,
        payload: vec!["x".to_string()],
    };
    let first = invoke_inline_macro(&mut cache, &req, 7).unwrap();
    assert!(first.must_load);
    assert_eq!(first.handle_id, 7);
    assert_eq!(first.symbol_name.as_str(), "f");
    let second = invoke_inline_macro(&mut cache, &req, 8).unwrap();
    assert!(!second.must_load);
    assert_eq!(second.handle_id, 7);
}

#[test]
fn attribute_arity_is_two() {
    let mut cache = HandleCache::new();
    let bad = InvocationRequest {
        artifact_path: "/tmp/a.so".to_string(),
        symbol_name: "f".to_string(),
        kind: MacroKind::Attribute,
        payload: vec!["only one".to_string()],
    };
    assert_eq!(
        invoke_inline_macro(&mut cache, &bad, 1),
        Err(InvocationError::MalformedRequest)
    );
    let good = InvocationRequest {
        artifact_path: "/tmp/a.so".to_string(),
        symbol_name: "f".to_string(),
        kind: MacroKind::Attribute,
        payload: vec!["params".to_string(), "item".to_string()],
    };
    assert!(invoke_inline_macro(&mut cache, &good, 1).is_ok());
}

#[test]
fn call_outcomes_are_contained() {
    assert_eq!(
        interpret_call_outcome(RawCallOutcome::Returned("fn out() {}".to_string())),
        InvocationResult::Produced("fn out() {}".to_string())
    );
    assert_eq!(
        interpret_call_outcome(RawCallOutcome::Panicked("boom".to_string())),
        InvocationResult::Failed(InvocationError::CalleePanicked("boom".to_string()))
    );
    assert_eq!(
        interpret_call_outcome(RawCallOutcome::MissingSymbol),
        InvocationResult::Failed(InvocationError::SymbolNotFound)
    );
}

#[test]
fn inline_attr_matches_manual_call() {
    let params = vec![
        Token::Ident("p".to_string()),
        Token::Group { delim: GroupDelim::Paren, content: "a, b".to_string() },
    ];
    let expansion = inline_attr(&params, "struct S;").unwrap();
    assert_eq!(expansion.as_str(), "p!((a, b) struct S;);");
}

#[test]
fn inline_attr_bare_path() {
    let params = vec![Token::Ident("p".to_string())];
    let expansion = inline_attr(&params, "struct S;").unwrap();
    assert_eq!(expansion.as_str(), "p!(() struct S;);");
}

#[test]
fn inline_attr_qualified_path() {
    let params = vec![
        Token::Ident("my".to_string()),
        Token::Punct(':'),
        Token::Punct(':'),
        Token::Ident("attr".to_string()),
        Token::Group { delim: GroupDelim::Bracket, content: "x".to_string() },
    ];
    let expansion = inline_attr(&params, "fn f() {}").unwrap();
    assert_eq!(expansion.as_str(), "my::attr!((x) fn f() {});");
}

#[test]
fn inline_attr_rejects_bad_params() {
    assert_eq!(
        inline_attr(&vec![Token::Punct('+')], "struct S;"),
        Err(SugarError::ArgumentParseError)
    );
    let trailing = vec![
        Token::Ident("p".to_string()),
        Token::Group { delim: GroupDelim::Paren, content: "a".to_string() },
        Token::Ident("junk".to_string()),
    ];
    assert_eq!(inline_attr(&trailing, "struct S;"), Err(SugarError::ArgumentParseError));
}

#[test]
fn derive_multiplexer_fans_out_in_order() {
    let item = AnnotatedItem {
        attrs: vec![ItemAttribute {
            name: "inline_derive".to_string(),
            args: vec!["D1".to_string(), "D2".to_string()],
        }],
        kind_word: "struct".to_string(),
        body_text: "struct Item;".to_string(),
    };
    let out = inline_derive(&item).unwrap();
    assert_eq!(out.as_str(), "D1!(struct Item;);D2!(struct Item;);");
}

#[test]
fn derive_multiplexer_strips_only_its_attribute() {
    let item = AnnotatedItem {
        attrs: vec![
            ItemAttribute { name: "helper".to_string(), args: vec!["marker".to_string()] },
            ItemAttribute {
                name: "inline_derive".to_string(),
                args: vec!["D".to_string()],
            },
        ],
        kind_word: "enum".to_string(),
        body_text: "enum E { A }".to_string(),
    };
    let out = inline_derive(&item).unwrap();
    assert_eq!(out.as_str(), "D!(#[helper(marker)]enum E { A });");
}

#[test]
fn derive_multiplexer_requires_adt() {
    let item = AnnotatedItem {
        attrs: vec![ItemAttribute { name: "inline_derive".to_string(), args: vec!["D".to_string()] }],
        kind_word: "fn".to_string(),
        body_text: "fn f() {}".to_string(),
    };
    assert_eq!(inline_derive(&item), Err(SugarError::UnsupportedItemKind));
}

#[test]
fn derive_multiplexer_requires_attribute() {
    let item = AnnotatedItem {
        attrs: Vec::new(),
        kind_word: "struct".to_string(),
        body_text: "struct S;".to_string(),
    };
    assert_eq!(inline_derive(&item), Err(SugarError::AttributeMissing));
}
