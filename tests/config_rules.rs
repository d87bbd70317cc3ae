use hcc::cli::Source;
use hcc::config::{
    create_config, judge_dependency_url, resolve_config, select_config, selected_infiles,
    validate_config, validate_dependency,
    Build, Config, ConfigError, Dependency, Package,
};
use hcc::paths::{classify, kind_of_extension, FileKind};

fn strings(v: &[&str]) -> Vec<String> {
    v.iter().map(|s| s.to_string()).collect()
}

fn config(ins: &[&str], out: &str, doc: Option<&str>, deps: &[(&str, &str)]) -> Config {
    Config {
        build: Build {
            infiles: strings(ins),
            outfile: out.to_string(),
            docfile: doc.map(|d| d.to_string()),
        },
        dependencies: deps
            .iter()
            .map(|(n, u)| Dependency { name: n.to_string(), url: u.to_string() })
            .collect(),
        package: None,
    }
}

#[test]
fn classify_by_extension() {
    assert_eq!(classify("main.hc"), FileKind::SourceFile);
    assert_eq!(classify("lib/util.hc"), FileKind::SourceFile);
    assert_eq!(classify("prebuilt.wasm"), FileKind::PrebuiltModule);
    assert_eq!(classify("notes.txt"), FileKind::Invalid);
    assert_eq!(classify("Makefile"), FileKind::Invalid);
    assert_eq!(classify(".hc"), FileKind::Invalid);
}

#[test]
fn classify_extension_values() {
    assert_eq!(kind_of_extension(&Some("hc".to_string())), FileKind::SourceFile);
    assert_eq!(kind_of_extension(&Some("wasm".to_string())), FileKind::PrebuiltModule);
    assert_eq!(kind_of_extension(&Some("HC".to_string())), FileKind::Invalid);
    assert_eq!(kind_of_extension(&None), FileKind::Invalid);
}

#[test]
fn github_url_is_accepted() {
    assert!(validate_dependency("https://github.com/halcyon/std".to_string()).is_ok());
}

#[test]
fn unparsable_url_is_refused() {
    let r = validate_dependency("not a url".to_string());
    assert!(matches!(r, Err(ConfigError::UnparsableUrl { url }) if url == "not a url"));
}

#[test]
fn url_without_host_is_refused() {
    let r = validate_dependency("mailto:someone@github.com".to_string());
    assert!(matches!(r, Err(ConfigError::UrlWithoutHost { .. })));
}

#[test]
fn url_on_other_host_is_refused() {
    let r = validate_dependency("https://gitlab.com/halcyon/std".to_string());
    assert!(matches!(r, Err(ConfigError::ForeignHost { url }) if url == "https://gitlab.com/halcyon/std"));
}

#[test]
fn judge_url_by_parse_result() {
    assert!(judge_dependency_url("u", Some(Some("github.com".to_string()))).is_ok());
    assert!(matches!(judge_dependency_url("u", None), Err(ConfigError::UnparsableUrl { .. })));
    assert!(matches!(judge_dependency_url("u", Some(None)), Err(ConfigError::UrlWithoutHost { .. })));
    assert!(matches!(
        judge_dependency_url("u", Some(Some("github.com.evil".to_string()))),
        Err(ConfigError::ForeignHost { .. })
    ));
}

#[test]
fn valid_config_passes() {
    let cfg = config(
        &["a.hc", "b.wasm"],
        "out.wasm",
        Some("docs.md"),
        &[("std", "https://github.com/halcyon/std")],
    );
    assert!(validate_config(&cfg, &vec![true, true]).is_ok());
}

#[test]
fn missing_input_file_is_reported_first() {
    let cfg = config(&["a.hc", "gone.hc"], "", None, &[]);
    let r = validate_config(&cfg, &vec![true, false]);
    assert!(matches!(r, Err(ConfigError::MissingInputFile { path }) if path == "gone.hc"));
}

#[test]
fn invalid_input_file_is_reported() {
    let cfg = config(&["a.txt"], "out.wasm", None, &[]);
    let r = validate_config(&cfg, &vec![true]);
    assert!(matches!(r, Err(ConfigError::InvalidInputFile { path }) if path == "a.txt"));
}

#[test]
fn empty_output_file_is_reported() {
    let cfg = config(&["a.hc"], "", None, &[]);
    assert!(matches!(validate_config(&cfg, &vec![true]), Err(ConfigError::NoOutputFile)));
}

#[test]
fn invalid_output_file_is_reported() {
    let cfg = config(&["a.hc"], "out.exe", None, &[]);
    let r = validate_config(&cfg, &vec![true]);
    assert!(matches!(r, Err(ConfigError::InvalidOutputFile { path }) if path == "out.exe"));
}

#[test]
fn no_input_files_is_reported() {
    let cfg = config(&[], "out.wasm", None, &[]);
    assert!(matches!(validate_config(&cfg, &vec![]), Err(ConfigError::NoInputFiles)));
}

#[test]
fn invalid_doc_file_is_reported() {
    let cfg = config(&["a.hc"], "out.wasm", Some("docs.txt"), &[]);
    let r = validate_config(&cfg, &vec![true]);
    assert!(matches!(r, Err(ConfigError::InvalidDocFile { path }) if path == "docs.txt"));
}

#[test]
fn first_bad_dependency_is_reported() {
    let cfg = config(
        &["a.hc"],
        "out.wasm",
        None,
        &[
            ("ok", "https://github.com/a/b"),
            ("bad", "https://example.org/a/b"),
            ("worse", "::"),
        ],
    );
    let r = validate_config(&cfg, &vec![true]);
    assert!(matches!(r, Err(ConfigError::ForeignHost { url }) if url == "https://example.org/a/b"));
}

#[test]
fn create_config_validates() {
    let ok = create_config(strings(&["a.hc"]), "a.wasm".to_string(), None, vec![], &vec![true]);
    let cfg = ok.unwrap();
    assert_eq!(cfg.build.infiles, strings(&["a.hc"]));
    assert_eq!(cfg.build.outfile, "a.wasm");
    assert!(cfg.package.is_none());
    let bad = create_config(strings(&["a.hc"]), "a.out".to_string(), None, vec![], &vec![true]);
    assert!(matches!(bad, Err(ConfigError::InvalidOutputFile { .. })));
}

#[test]
fn select_single_input_defaults_output() {
    let source = Source { config_file: None, input_path: Some("main.hc".to_string()) };
    let cfg = select_config(source, None, None, None);
    assert_eq!(cfg.build.infiles, strings(&["main.hc"]));
    assert_eq!(cfg.build.outfile, "./a.wasm");
    assert_eq!(cfg.build.docfile, None);
    assert!(cfg.dependencies.is_empty());
}

#[test]
fn select_single_input_with_overrides() {
    let source = Source { config_file: None, input_path: Some("main.hc".to_string()) };
    let cfg = select_config(source, Some("x.wasm".to_string()), Some("d.md".to_string()), None);
    assert_eq!(cfg.build.outfile, "x.wasm");
    assert_eq!(cfg.build.docfile, Some("d.md".to_string()));
}

#[test]
fn select_config_file_keeps_other_fields() {
    let mut loaded = config(
        &["a.hc", "b.hc"],
        "out.wasm",
        Some("docs.md"),
        &[("std", "https://github.com/halcyon/std")],
    );
    loaded.package = Some(Package { name: "demo".to_string(), version: "1.0".to_string() });
    let source = Source { config_file: Some("Config.toml".to_string()), input_path: None };
    let cfg = select_config(source, Some("other.wasm".to_string()), None, Some(loaded));
    assert_eq!(cfg.build.infiles, strings(&["a.hc", "b.hc"]));
    assert_eq!(cfg.build.outfile, "other.wasm");
    assert_eq!(cfg.build.docfile, Some("docs.md".to_string()));
    assert_eq!(cfg.dependencies.len(), 1);
    assert_eq!(cfg.dependencies[0].name, "std");
    assert_eq!(cfg.package.as_ref().map(|p| p.name.as_str()), Some("demo"));
}

#[test]
fn select_config_file_without_overrides() {
    let loaded = config(&["a.hc"], "out.wasm", Some("docs.md"), &[]);
    let source = Source { config_file: Some("Config.toml".to_string()), input_path: None };
    let cfg = select_config(source, None, Some("api.md".to_string()), Some(loaded));
    assert_eq!(cfg.build.outfile, "out.wasm");
    assert_eq!(cfg.build.docfile, Some("api.md".to_string()));
}

#[test]
fn duplicate_dependency_names_are_refused() {
    let cfg = config(
        &["a.hc"],
        "out.wasm",
        None,
        &[
            ("std", "https://github.com/a/std"),
            ("net", "https://github.com/a/net"),
            ("std", "https://github.com/b/std"),
        ],
    );
    let r = validate_config(&cfg, &vec![true]);
    assert!(matches!(r, Err(ConfigError::DuplicateDependency { name }) if name == "std"));
}

#[test]
fn selected_infiles_follow_the_source() {
    let single = Source { config_file: None, input_path: Some("main.hc".to_string()) };
    assert_eq!(selected_infiles(&single, &None), strings(&["main.hc"]));
    let file = Source { config_file: Some("Config.toml".to_string()), input_path: None };
    let loaded = Some(config(&["a.hc", "b.hc"], "out.wasm", None, &[]));
    assert_eq!(selected_infiles(&file, &loaded), strings(&["a.hc", "b.hc"]));
}

#[test]
fn resolve_validates_the_loaded_description() {
    let file = Source { config_file: Some("Config.toml".to_string()), input_path: None };
    let loaded = config(&[], "", None, &[]);
    let r = resolve_config(file, None, None, Some(loaded), &vec![]);
    assert!(matches!(r, Err(ConfigError::NoOutputFile)));
}

#[test]
fn resolve_validates_the_overrides() {
    let file = Source { config_file: Some("Config.toml".to_string()), input_path: None };
    let loaded = config(&["a.hc"], "out.wasm", None, &[]);
    let r = resolve_config(file, Some("out.bin".to_string()), None, Some(loaded), &vec![true]);
    assert!(matches!(r, Err(ConfigError::InvalidOutputFile { path }) if path == "out.bin"));
}

#[test]
fn resolve_accepts_a_valid_project() {
    let single = Source { config_file: None, input_path: Some("main.hc".to_string()) };
    let cfg = resolve_config(single, None, Some("api.md".to_string()), None, &vec![true]).unwrap();
    assert_eq!(cfg.build.infiles, strings(&["main.hc"]));
    assert_eq!(cfg.build.outfile, "./a.wasm");
    let missing = Source { config_file: None, input_path: Some("main.hc".to_string()) };
    let r = resolve_config(missing, None, None, None, &vec![false]);
    assert!(matches!(r, Err(ConfigError::MissingInputFile { path }) if path == "main.hc"));
}
