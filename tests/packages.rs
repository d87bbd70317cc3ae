use hcc::config::{Build, Config, ConfigError, Package};
use hcc::pdm::{
    add_dependency, dependency_files, get_dependency_source_code, CacheRecord, DepError,
    FetchAction, FetchEvent, FetchSession,
};

fn nested(package: Option<(&str, &str)>) -> Config {
    Config {
        build: Build {
            infiles: vec!["lib.hc".to_string(), "more.hc".to_string()],
            outfile: "lib.wasm".to_string(),
            docfile: None,
        },
        dependencies: vec![],
        package: package.map(|(n, v)| Package { name: n.to_string(), version: v.to_string() }),
    }
}

fn looked_up() -> FetchSession {
    let (s, a) = add_dependency(
        "std".to_string(),
        "https://github.com/halcyon/std".to_string(),
        "/home/u/hc".to_string(),
    )
    .unwrap();
    assert!(matches!(a, FetchAction::Lookup { path } if path == "/home/u/hc/records/std"));
    s
}

fn started() -> FetchSession {
    let mut s = looked_up();
    let a = s.step(FetchEvent::Looked(None));
    assert!(matches!(a, FetchAction::Clone { url, dest }
        if url == "https://github.com/halcyon/std" && dest == "/home/u/hc/temp"));
    s
}

fn record(url: &str) -> CacheRecord {
    CacheRecord { url: url.to_string(), name: "hstd".to_string(), version: "0.2".to_string() }
}

fn expect_record(a: FetchAction) {
    match a {
        FetchAction::Record { path, record } => {
            assert_eq!(path, "/home/u/hc/records/std");
            assert_eq!(record.url, "https://github.com/halcyon/std");
            assert_eq!(record.name, "hstd");
            assert_eq!(record.version, "0.2");
        },
        _ => panic!("expected a record"),
    }
}

fn identified() -> FetchSession {
    let mut s = started();
    let a = s.step(FetchEvent::Cloned(Ok(())));
    assert!(matches!(a, FetchAction::ReadConfig { path } if path == "/home/u/hc/temp/Config.toml"));
    let a = s.step(FetchEvent::ConfigRead(Ok(nested(Some(("hstd", "0.2"))))));
    assert!(matches!(a, FetchAction::Probe { path } if path == "/home/u/hc/hstd-0.2"));
    s
}

#[test]
fn refused_url_fetches_nothing() {
    let r = add_dependency("x".to_string(), "https://example.com/x".to_string(), "/c".to_string());
    assert!(matches!(r, Err(DepError::Config(ConfigError::ForeignHost { .. }))));
    let r = add_dependency("x".to_string(), "nope".to_string(), "/c".to_string());
    assert!(matches!(r, Err(DepError::Config(ConfigError::UnparsableUrl { .. }))));
}

#[test]
fn first_fetch_moves_clone_into_slot() {
    let mut s = identified();
    let a = s.step(FetchEvent::Probed(false));
    assert!(matches!(a, FetchAction::Move { from, to }
        if from == "/home/u/hc/temp" && to == "/home/u/hc/hstd-0.2"));
    expect_record(s.step(FetchEvent::Moved(Ok(()))));
    match s.step(FetchEvent::Recorded(Ok(()))) {
        FetchAction::Finish { resolved, reused } => {
            assert!(!reused);
            assert_eq!(resolved.name, "std");
            assert_eq!(resolved.package, "hstd-0.2");
            assert_eq!(resolved.local_path, "/home/u/hc/hstd-0.2");
        },
        _ => panic!("expected the end"),
    }
}

#[test]
fn taken_slot_discards_clone() {
    let mut s = identified();
    let a = s.step(FetchEvent::Probed(true));
    assert!(matches!(a, FetchAction::Remove { path } if path == "/home/u/hc/temp"));
    expect_record(s.step(FetchEvent::Removed(Ok(()))));
    match s.step(FetchEvent::Recorded(Ok(()))) {
        FetchAction::Finish { resolved, reused } => {
            assert!(reused);
            assert_eq!(resolved.local_path, "/home/u/hc/hstd-0.2");
        },
        _ => panic!("expected the end"),
    }
}

#[test]
fn clone_failure_is_reported() {
    let mut s = started();
    let a = s.step(FetchEvent::Cloned(Err("network down".to_string())));
    assert!(matches!(a, FetchAction::Fail(DepError::Clone { name, url, reason })
        if name == "std" && url == "https://github.com/halcyon/std" && reason == "network down"));
}

#[test]
fn nested_config_error_names_dependency() {
    let mut s = started();
    let _ = s.step(FetchEvent::Cloned(Ok(())));
    let a = s.step(FetchEvent::ConfigRead(Err(ConfigError::NoInputFiles)));
    assert!(matches!(a, FetchAction::Fail(DepError::Nested { name, error: ConfigError::NoInputFiles })
        if name == "std"));
}

#[test]
fn dependency_without_package_is_refused() {
    let mut s = started();
    let _ = s.step(FetchEvent::Cloned(Ok(())));
    let a = s.step(FetchEvent::ConfigRead(Ok(nested(None))));
    assert!(matches!(a, FetchAction::Fail(DepError::NoPackage { name }) if name == "std"));
}

#[test]
fn move_failure_is_reported() {
    let mut s = identified();
    let _ = s.step(FetchEvent::Probed(false));
    let a = s.step(FetchEvent::Moved(Err("exists".to_string())));
    assert!(matches!(a, FetchAction::Fail(DepError::Io { path, .. }) if path == "/home/u/hc/hstd-0.2"));
}

#[test]
fn fetch_event_out_of_order() {
    let mut s = started();
    let a = s.step(FetchEvent::Probed(true));
    assert!(matches!(a, FetchAction::Fail(DepError::OutOfOrder)));
    let mut s = looked_up();
    let a = s.step(FetchEvent::Cloned(Ok(())));
    assert!(matches!(a, FetchAction::Fail(DepError::OutOfOrder)));
}

#[test]
fn dependency_source_is_joined() {
    let cfg = nested(Some(("hstd", "0.2")));
    let contents = vec!["one".to_string(), "two".to_string()];
    let src = get_dependency_source_code("std", &cfg, &contents).unwrap();
    assert_eq!(src, "\none\ntwo");
    let bare = nested(None);
    let r = get_dependency_source_code("std", &bare, &contents);
    assert!(matches!(r, Err(DepError::NoPackage { name }) if name == "std"));
}

#[test]
fn dependency_files_are_in_slot() {
    let cfg = nested(Some(("hstd", "0.2")));
    let files = dependency_files("/home/u/hc/hstd-0.2", &cfg);
    assert_eq!(files, vec!["/home/u/hc/hstd-0.2/lib.hc".to_string(), "/home/u/hc/hstd-0.2/more.hc".to_string()]);
}

#[test]
fn removal_failure_is_reported() {
    let mut s = identified();
    let _ = s.step(FetchEvent::Probed(true));
    let a = s.step(FetchEvent::Removed(Err("busy".to_string())));
    assert!(matches!(a, FetchAction::Fail(DepError::Io { path, reason })
        if path == "/home/u/hc/temp" && reason == "busy"));
}

#[test]
fn recorded_dependency_is_reused_without_clone() {
    let mut s = looked_up();
    let a = s.step(FetchEvent::Looked(Some(record("https://github.com/halcyon/std"))));
    assert!(matches!(a, FetchAction::Probe { path } if path == "/home/u/hc/hstd-0.2"));
    match s.step(FetchEvent::Probed(true)) {
        FetchAction::Finish { resolved, reused } => {
            assert!(reused);
            assert_eq!(resolved.package, "hstd-0.2");
            assert_eq!(resolved.local_path, "/home/u/hc/hstd-0.2");
        },
        _ => panic!("expected the end"),
    }
}

#[test]
fn record_of_other_url_is_not_trusted() {
    let mut s = looked_up();
    let a = s.step(FetchEvent::Looked(Some(record("https://github.com/other/std"))));
    assert!(matches!(a, FetchAction::Clone { .. }));
}

#[test]
fn vanished_slot_is_fetched_again() {
    let mut s = looked_up();
    let _ = s.step(FetchEvent::Looked(Some(record("https://github.com/halcyon/std"))));
    let a = s.step(FetchEvent::Probed(false));
    assert!(matches!(a, FetchAction::Clone { dest, .. } if dest == "/home/u/hc/temp"));
}

#[test]
fn record_failure_is_reported() {
    let mut s = identified();
    let _ = s.step(FetchEvent::Probed(false));
    let _ = s.step(FetchEvent::Moved(Ok(())));
    let a = s.step(FetchEvent::Recorded(Err("disk full".to_string())));
    assert!(matches!(a, FetchAction::Fail(DepError::Io { path, .. }) if path == "/home/u/hc/records/std"));
}
