use hcc::pipeline::{
    compilation_unit, join_sources, plan_inputs, BuildAction, BuildError, BuildEvent, BuildSession,
};

fn strings(v: &[&str]) -> Vec<String> {
    v.iter().map(|s| s.to_string()).collect()
}

#[test]
fn join_puts_one_break_before_each_source() {
    assert_eq!(join_sources(&strings(&["fn a", "fn b"])), "\nfn a\nfn b");
    assert_eq!(join_sources(&strings(&["x"])), "\nx");
    assert_eq!(join_sources(&vec![]), "");
    assert_eq!(join_sources(&strings(&["", ""])), "\n\n");
}

#[test]
fn join_keeps_trailing_content() {
    assert_eq!(join_sources(&strings(&["a\n", " b "])), "\na\n\n b ");
}

#[test]
fn join_many_sources() {
    let parts: Vec<String> = (0..1000).map(|i| format!("s{i}")).collect();
    let joined = join_sources(&parts);
    let expected: String = parts.iter().map(|p| format!("\n{p}")).collect();
    assert_eq!(joined, expected);
    assert_eq!(joined.matches('\n').count(), 1000);
}

#[test]
fn unit_puts_dependencies_first() {
    let unit = compilation_unit(&strings(&["\ndep1", "\ndep2a\ndep2b"]), &strings(&["main"]));
    assert_eq!(unit, "\ndep1\ndep2a\ndep2b\nmain");
    assert_eq!(compilation_unit(&vec![], &strings(&["main"])), "\nmain");
}

#[test]
fn plan_splits_by_kind_in_order() {
    let plan = plan_inputs(&strings(&["a.hc", "m.wasm", "b.hc", "n.wasm"])).unwrap();
    assert_eq!(plan.sources, strings(&["a.hc", "b.hc"]));
    assert_eq!(plan.modules, strings(&["m.wasm", "n.wasm"]));
}

#[test]
fn plan_refuses_unknown_input() {
    let r = plan_inputs(&strings(&["a.hc", "b.txt", "c.doc"]));
    assert!(matches!(r, Err(BuildError::InvalidInput { path }) if path == "b.txt"));
}

fn start(files: &[&str], sources: &[&str], out: Option<&str>) -> (BuildSession, BuildAction) {
    BuildSession::start(
        strings(files),
        strings(sources),
        vec![],
        vec![],
        out.map(|o| o.to_string()),
    )
}

#[test]
fn two_files_build_and_persist() {
    let (mut s, a) = start(&["a.hc", "b.hc"], &["A", "B"], Some("out.wasm"));
    assert!(matches!(a, BuildAction::CompileFile { file, source } if file == "a.hc" && source == "A"));
    let a = s.step(BuildEvent::Compiled(Ok(vec![1])));
    assert!(matches!(a, BuildAction::CompileFile { file, source } if file == "b.hc" && source == "B"));
    let a = s.step(BuildEvent::Compiled(Ok(vec![2])));
    assert!(matches!(a, BuildAction::CompileUnit { source } if source == "\nA\nB"));
    let module = vec![0u8, 97, 115, 109];
    let a = s.step(BuildEvent::Compiled(Ok(module.clone())));
    let written = match a {
        BuildAction::WriteOutput { path, bytes } => {
            assert_eq!(path, "out.wasm");
            bytes
        },
        _ => panic!("expected a write"),
    };
    assert_eq!(written, module);
    let a = s.step(BuildEvent::Written(Ok(())));
    match a {
        BuildAction::Finish { binaries, no_output } => {
            assert_eq!(binaries, vec![module.clone()]);
            assert_eq!(binaries.last().unwrap(), &written);
            assert!(!no_output);
        },
        _ => panic!("expected the end"),
    }
}

#[test]
fn build_without_output_returns_module() {
    let (mut s, _) = start(&["a.hc"], &["A"], None);
    let a = s.step(BuildEvent::Compiled(Ok(vec![])));
    assert!(matches!(a, BuildAction::CompileUnit { source } if source == "\nA"));
    let a = s.step(BuildEvent::Compiled(Ok(vec![9, 9])));
    assert!(matches!(a, BuildAction::Finish { binaries, no_output: false } if binaries == vec![vec![9u8, 9]]));
}

#[test]
fn prebuilt_modules_come_before_compiled_one() {
    let (mut s, _) = BuildSession::start(
        strings(&["a.hc"]),
        strings(&["A"]),
        vec![vec![7u8]],
        strings(&["\nD"]),
        None,
    );
    let a = s.step(BuildEvent::Compiled(Ok(vec![])));
    assert!(matches!(a, BuildAction::CompileUnit { source } if source == "\nD\nA"));
    let a = s.step(BuildEvent::Compiled(Ok(vec![8])));
    assert!(matches!(a, BuildAction::Finish { binaries, .. } if binaries == vec![vec![7u8], vec![8u8]]));
}

#[test]
fn only_prebuilt_modules_with_output_warns() {
    let (_, a) = BuildSession::start(vec![], vec![], vec![vec![1u8]], vec![], Some("o.wasm".to_string()));
    assert!(matches!(a, BuildAction::Finish { binaries, no_output: true } if binaries == vec![vec![1u8]]));
}

#[test]
fn check_stops_at_first_failing_file() {
    let (mut s, _) = start(&["a.hc", "b.hc", "c.hc"], &["A", "B", "C"], None);
    let _ = s.step(BuildEvent::Compiled(Ok(vec![])));
    let a = s.step(BuildEvent::Compiled(Err("bad token".to_string())));
    assert!(matches!(a, BuildAction::Fail(BuildError::Check { file, diagnostics })
        if file == "b.hc" && diagnostics == "bad token"));
    let a = s.step(BuildEvent::Compiled(Ok(vec![])));
    assert!(matches!(a, BuildAction::Fail(BuildError::OutOfOrder)));
}

#[test]
fn unit_failure_is_reported() {
    let (mut s, _) = start(&["a.hc"], &["A"], Some("o.wasm"));
    let _ = s.step(BuildEvent::Compiled(Ok(vec![])));
    let a = s.step(BuildEvent::Compiled(Err("unresolved name".to_string())));
    assert!(matches!(a, BuildAction::Fail(BuildError::Compile { diagnostics }) if diagnostics == "unresolved name"));
}

#[test]
fn write_failure_is_reported() {
    let (mut s, _) = start(&["a.hc"], &["A"], Some("o.wasm"));
    let _ = s.step(BuildEvent::Compiled(Ok(vec![])));
    let _ = s.step(BuildEvent::Compiled(Ok(vec![1])));
    let a = s.step(BuildEvent::Written(Err("read-only".to_string())));
    assert!(matches!(a, BuildAction::Fail(BuildError::Write { path, reason })
        if path == "o.wasm" && reason == "read-only"));
}

#[test]
fn unexpected_event_fails() {
    let (mut s, _) = start(&["a.hc"], &["A"], None);
    let a = s.step(BuildEvent::Written(Ok(())));
    assert!(matches!(a, BuildAction::Fail(BuildError::OutOfOrder)));
}

#[test]
fn persisting_modules_with_sources_is_not_supported() {
    let (mut s, a) = BuildSession::start(
        strings(&["a.hc"]),
        strings(&["A"]),
        vec![vec![1u8]],
        vec![],
        Some("o.wasm".to_string()),
    );
    assert!(matches!(a, BuildAction::Fail(BuildError::LinkUnsupported)));
    let a = s.step(BuildEvent::Compiled(Ok(vec![])));
    assert!(matches!(a, BuildAction::Fail(BuildError::OutOfOrder)));
}
