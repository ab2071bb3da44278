use inline_proc::identity::CrateIdentity;
use inline_proc::identity::HostPackage;
use inline_proc::metadata::ConfigError;
use inline_proc::metadata::Dependency;
use inline_proc::metadata::RawExportEntry;
use inline_proc::metadata::RawExportValue;
use inline_proc::metadata::RawExports;
use inline_proc::metadata::RawMetadata;
use inline_proc::metadata::parse;
use inline_proc::metadata::serialize;
use inline_proc::text::check_identifier;
use inline_proc::text::check_package_name;
use inline_proc::text::u64_to_dec;

fn raw_with_exports(exports: RawExports) -> RawMetadata {
    RawMetadata {
        cargo_path: None,
        color: None,
        clippy: None,
        edition: None,
        dependencies: None,
        inline_proc_path: None,
        exports: Some(exports),
        unknown_options: Vec::new(),
    }
}

fn one_bang(name: &str, function: &str) -> RawExports {
    RawExports {
        bang_macros: vec![RawExportEntry {
            name: name.to_string(),
            value: RawExportValue::Bare(function.to_string()),
        }],
        derives: Vec::new(),
        attributes: Vec::new(),
    }
}

#[test]
fn parse_fills_defaults() {
    let m = parse(&raw_with_exports(one_bang("m", "f"))).unwrap();
    assert!(m.build_tool.is_none());
    assert!(m.use_color);
    assert!(!m.run_lint);
    assert_eq!(m.edition.as_str(), "2015");
    assert!(m.dependencies.is_empty());
    assert!(m.crate_path_override.is_none());
    assert_eq!(m.exports.bang_macros.len(), 1);
    assert_eq!(m.exports.bang_macros[0].name.as_str(), "m");
    assert_eq!(m.exports.bang_macros[0].function.as_str(), "f");
    assert!(!m.exports.bang_macros[0].exported);
}

#[test]
fn parse_rejects_unknown_option() {
    let mut raw = raw_with_exports(one_bang("m", "f"));
    raw.unknown_options = vec!["colour".to_string()];
    assert_eq!(parse(&raw), Err(ConfigError::UnknownOption));
}

#[test]
fn parse_rejects_missing_exports() {
    let mut raw = raw_with_exports(one_bang("m", "f"));
    raw.exports = None;
    assert_eq!(parse(&raw), Err(ConfigError::MissingField));
}

#[test]
fn parse_rejects_bad_function_identifier() {
    let raw = raw_with_exports(one_bang("m", "not an ident"));
    assert_eq!(parse(&raw), Err(ConfigError::Malformed));
}

#[test]
fn parse_rejects_empty_export_name() {
    let raw = raw_with_exports(one_bang("", "f"));
    assert_eq!(parse(&raw), Err(ConfigError::Malformed));
}

#[test]
fn parse_rejects_reused_export_name() {
    let raw = raw_with_exports(RawExports {
        bang_macros: vec![RawExportEntry {
            name: "m".to_string(),
            value: RawExportValue::Bare("f".to_string()),
        }],
        derives: vec![RawExportEntry {
            name: "m".to_string(),
            value: RawExportValue::Bare("g".to_string()),
        }],
        attributes: Vec::new(),
    });
    assert_eq!(parse(&raw), Err(ConfigError::Malformed));
}

#[test]
fn parse_rejects_bad_dependency_name() {
    let mut raw = raw_with_exports(one_bang("m", "f"));
    raw.dependencies = Some(vec![Dependency {
        name: "1bad name".to_string(),
        spec_text: "\"1\"".to_string(),
    }]);
    assert_eq!(parse(&raw), Err(ConfigError::Malformed));
}

#[test]
fn parse_reads_full_record_form() {
    let raw = raw_with_exports(RawExports {
        bang_macros: vec![RawExportEntry {
            name: "m".to_string(),
            value: RawExportValue::Full { function: "f".to_string(), export: true },
        }],
        derives: Vec::new(),
        attributes: Vec::new(),
    });
    let m = parse(&raw).unwrap();
    assert!(m.exports.bang_macros[0].exported);
}

#[test]
fn round_trip_keeps_every_field() {
    let raw = RawMetadata {
        cargo_path: Some("/usr/bin/cargo".to_string()),
        color: Some(false),
        clippy: Some(true),
        edition: Some("2021".to_string()),
        dependencies: Some(vec![Dependency {
            name: "quote".to_string(),
            spec_text: "\"1\"".to_string(),
        }]),
        inline_proc_path: Some("::renamed".to_string()),
        exports: Some(RawExports {
            bang_macros: vec![RawExportEntry {
                name: "m".to_string(),
                value: RawExportValue::Full { function: "f".to_string(), export: true },
            }],
            derives: vec![RawExportEntry {
                name: "MyDerive".to_string(),
                value: RawExportValue::Bare("my_derive".to_string()),
            }],
            attributes: vec![RawExportEntry {
                name: "my_attr".to_string(),
                value: RawExportValue::Bare("my_attr_fn".to_string()),
            }],
        }),
        unknown_options: Vec::new(),
    };
    let m = parse(&raw).unwrap();
    let again = parse(&serialize(&m)).unwrap();
    assert_eq!(m, again);
}

#[test]
fn identity_string_matches_layout() {
    let host = HostPackage {
        name: "my-nice-crate".to_string(),
        major: 0,
        minor: 7,
        patch: 3,
    };
    let id = CrateIdentity::of_host(&host, "my_module");
    assert_eq!(id.identity_string().as_str(), "my-nice-crate-0.7-my_module");
}

#[test]
fn identity_equal_inputs_equal_string() {
    let h = HostPackage { name: "pkg".to_string(), major: 1, minor: 2, patch: 3 };
    let a = CrateIdentity::of_host(&h, "m");
    let b = CrateIdentity::of_host(&h, "m");
    assert_eq!(a.identity_string(), b.identity_string());
}

#[test]
fn identity_changes_with_module_name() {
    let h = HostPackage { name: "pkg".to_string(), major: 1, minor: 2, patch: 3 };
    let a = CrateIdentity::of_host(&h, "m1");
    let b = CrateIdentity::of_host(&h, "m2");
    assert_ne!(a.identity_string(), b.identity_string());
}

#[test]
fn identity_changes_with_minor_version() {
    let h1 = HostPackage { name: "pkg".to_string(), major: 1, minor: 2, patch: 0 };
    let h2 = HostPackage { name: "pkg".to_string(), major: 1, minor: 20, patch: 0 };
    let a = CrateIdentity::of_host(&h1, "m");
    let b = CrateIdentity::of_host(&h2, "m");
    assert_ne!(a.identity_string(), b.identity_string());
}

#[test]
fn identity_ignores_patch_version() {
    let h1 = HostPackage { name: "pkg".to_string(), major: 1, minor: 2, patch: 3 };
    let h2 = HostPackage { name: "pkg".to_string(), major: 1, minor: 2, patch: 99 };
    let a = CrateIdentity::of_host(&h1, "m");
    let b = CrateIdentity::of_host(&h2, "m");
    assert_eq!(a.identity_string(), b.identity_string());
}

#[test]
fn identifier_checks() {
    assert!(check_identifier("my_fn2"));
    assert!(check_identifier("_x"));
    assert!(!check_identifier(""));
    assert!(!check_identifier("2x"));
    assert!(!check_identifier("a-b"));
    assert!(check_package_name("my-nice-crate"));
    assert!(!check_package_name("-bad"));
    assert!(!check_package_name(""));
}

#[test]
fn decimal_rendering() {
    assert_eq!(u64_to_dec(0).as_str(), "0");
    assert_eq!(u64_to_dec(7).as_str(), "7");
    assert_eq!(u64_to_dec(10).as_str(), "10");
    assert_eq!(u64_to_dec(4091).as_str(), "4091");
}

#[test]
fn serialize_writes_every_field_in_record_form() {
    let m = parse(&raw_with_exports(one_bang("m", "f"))).unwrap();
    let raw = serialize(&m);
    assert_eq!(raw.color, Some(true));
    assert_eq!(raw.clippy, Some(false));
    assert_eq!(raw.edition.as_deref(), Some("2015"));
    assert_eq!(raw.dependencies, Some(Vec::new()));
    assert!(raw.cargo_path.is_none());
    assert!(raw.inline_proc_path.is_none());
    assert!(raw.unknown_options.is_empty());
    let exports = raw.exports.unwrap();
    assert_eq!(
        exports.bang_macros[0].value,
        RawExportValue::Full { function: "f".to_string(), export: false }
    );
}

#[test]
fn parse_keeps_all_three_tables() {
    let raw = raw_with_exports(RawExports {
        bang_macros: vec![RawExportEntry {
            name: "b".to_string(),
            value: RawExportValue::Bare("fb".to_string()),
        }],
        derives: vec![RawExportEntry {
            name: "D".to_string(),
            value: RawExportValue::Bare("fd".to_string()),
        }],
        attributes: vec![RawExportEntry {
            name: "a".to_string(),
            value: RawExportValue::Bare("fa".to_string()),
        }],
    });
    let m = parse(&raw).unwrap();
    assert_eq!(m.exports.bang_macros[0].function.as_str(), "fb");
    assert_eq!(m.exports.derives[0].function.as_str(), "fd");
    assert_eq!(m.exports.attributes[0].function.as_str(), "fa");
}

#[test]
fn line_counting() {
    assert_eq!(inline_proc::text::line_count(""), 1);
    assert_eq!(inline_proc::text::line_count("one line"), 1);
    assert_eq!(inline_proc::text::line_count("a\nb\nc\n"), 4);
}
