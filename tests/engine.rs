use nested_workspace::engine::refuses_propagation;
use nested_workspace::{
    all_nested_workspace_roots, build, Action, CargoSubcommand, Delimiter, Error,
    NestedMetadata, PackageRecord, Propagation, Source,
};

fn strings(v: &[&str]) -> Vec<String> {
    v.iter().map(|s| s.to_string()).collect()
}

#[test]
fn build_without_offline_runs_nothing() {
    for (sub, token) in [(CargoSubcommand::Build, "build"), (CargoSubcommand::Check, "check")] {
        let mut p = build().propagation(sub, strings(&["--release"]), Some("foo".to_string()));
        match p.next().unwrap() {
            Action::Print(m) => assert_eq!(
                m,
                format!(
                    "cargo::warning=Refusing to {token} nested workspaces as `--offline` was not \
                     passed to parent command"
                )
            ),
            other => panic!("unexpected {other:?}"),
        }
        assert!(matches!(p.next().unwrap(), Action::Finish));
        assert!(matches!(p.next().unwrap(), Action::Finish));
    }
}

#[test]
fn offline_or_frozen_lets_build_through() {
    for flag in ["--offline", "--frozen"] {
        assert!(!refuses_propagation(&CargoSubcommand::Build, &strings(&["-v", flag])));
        let mut p = build()
            .arg("--quiet")
            .propagation(CargoSubcommand::Build, strings(&[flag]), Some("foo".to_string()));
        assert_eq!(p.args, strings(&["--quiet", flag]));
        assert!(matches!(p.next().unwrap(), Action::ListRoots { dir: None }));
        p.roots_listed(strings(&["/ws/foo/a", "/ws/foo/b"]));
        for root in ["/ws/foo/a", "/ws/foo/b"] {
            assert!(matches!(p.next().unwrap(), Action::Open(ref d) if d == root));
            match p.next().unwrap() {
                Action::Run { command, dir } => {
                    assert_eq!(dir, root);
                    assert_eq!(command.subcommand, "build");
                    assert_eq!(command.args, strings(&["-vv", "--offline", "--workspace"]));
                    assert!(p.command_finished(command, true).is_ok());
                }
                other => panic!("unexpected {other:?}"),
            }
            assert!(matches!(p.next().unwrap(), Action::Close(ref d) if d == root));
        }
        assert!(matches!(p.next().unwrap(), Action::Finish));
    }
    assert!(!refuses_propagation(&CargoSubcommand::Test, &Vec::new()));
}

#[test]
fn current_package_with_no_roots_gives_notice() {
    let mut p = nested_workspace::engine::test().propagation(CargoSubcommand::Test, Vec::new(), Some("foo".to_string()));
    assert!(matches!(p.next().unwrap(), Action::ListRoots { dir: None }));
    p.roots_listed(Vec::new());
    match p.next().unwrap() {
        Action::Notice(m) => assert_eq!(m, "Warning: found no nested workspaces"),
        other => panic!("unexpected {other:?}"),
    }
    assert!(matches!(p.next().unwrap(), Action::Finish));
}

#[test]
fn nested_test_scenario_recurses() {
    let packages = vec![PackageRecord {
        name: "P".to_string(),
        manifest_path: "/ws/P/Cargo.toml".to_string(),
        metadata: NestedMetadata::Roots(strings(&["vendor/sub"])),
    }];
    let mut p = Propagation::nested(
        CargoSubcommand::Test,
        strings(&["--workspace"]),
        "/ws".to_string(),
        None,
    );
    match p.next().unwrap() {
        Action::ListRoots { dir } => assert_eq!(dir, Some("/ws".to_string())),
        other => panic!("unexpected {other:?}"),
    }
    p.roots_listed(all_nested_workspace_roots(&packages).unwrap());
    assert!(matches!(p.next().unwrap(), Action::Open(ref d) if d == "/ws/P/vendor/sub"));
    match p.next().unwrap() {
        Action::Run { command, dir } => {
            assert_eq!(dir, "/ws/P/vendor/sub");
            assert_eq!(command.program, "cargo");
            assert_eq!(command.subcommand, "test");
            assert_eq!(command.args, strings(&["--workspace"]));
            assert_eq!(command.env_remove, strings(&["CARGO", "RUSTC", "RUSTUP_TOOLCHAIN"]));
            assert_eq!(command.env_set, None);
            assert!(p.command_finished(command, true).is_ok());
        }
        other => panic!("unexpected {other:?}"),
    }
    match p.next().unwrap() {
        Action::ListRoots { dir } => assert_eq!(dir, Some("/ws/P/vendor/sub".to_string())),
        other => panic!("unexpected {other:?}"),
    }
    assert_eq!(p.source, Source::CargoNested);
    assert!(matches!(p.subcommand, CargoSubcommand::Test));
    p.roots_listed(Vec::new());
    assert!(matches!(p.next().unwrap(), Action::Close(ref d) if d == "/ws/P/vendor/sub"));
    assert!(matches!(p.next().unwrap(), Action::Finish));
}

#[test]
fn delimiters_nest_around_recursion() {
    let mut p = Propagation::on_roots(
        Source::CargoNested,
        CargoSubcommand::Build,
        Vec::new(),
        None,
        strings(&["/a", "/b"]),
        None,
        false,
    );
    let mut trace = Vec::new();
    loop {
        match p.next().unwrap() {
            Action::Open(d) => trace.push(format!("<{d}")),
            Action::Close(d) => trace.push(format!(">{d}")),
            Action::Run { command, dir } => {
                trace.push(format!("run {dir}"));
                p.command_finished(command, true).unwrap();
            }
            Action::ListRoots { dir } => {
                let dir = dir.unwrap();
                trace.push(format!("list {dir}"));
                if dir == "/a" {
                    p.roots_listed(strings(&["/a/x"]));
                } else {
                    p.roots_listed(Vec::new());
                }
            }
            Action::Finish => break,
            other => panic!("unexpected {other:?}"),
        }
    }
    assert_eq!(
        trace,
        strings(&[
            "</a", "run /a", "list /a", "</a/x", "run /a/x", "list /a/x", ">/a/x", ">/a", "</b",
            "run /b", "list /b", ">/b",
        ])
    );
}

#[test]
fn nested_with_no_roots_names_directory() {
    let mut p = Propagation::nested(CargoSubcommand::Build, Vec::new(), "/ws".to_string(), None);
    assert!(matches!(p.next().unwrap(), Action::ListRoots { .. }));
    p.roots_listed(Vec::new());
    match p.next().unwrap() {
        Action::Notice(m) => assert_eq!(m, "Warning: found no nested workspaces in `/ws`"),
        other => panic!("unexpected {other:?}"),
    }
}

#[test]
fn failed_command_is_fatal() {
    let mut p = Propagation::on_roots(
        Source::CargoNested,
        CargoSubcommand::Run,
        Vec::new(),
        None,
        strings(&["/r1", "/r2"]),
        None,
        false,
    );
    assert!(matches!(p.next().unwrap(), Action::Open(ref d) if d == "/r1"));
    match p.next().unwrap() {
        Action::Run { command, dir } => {
            assert_eq!(dir, "/r1");
            match p.command_finished(command, false) {
                Err(Error::ExternalCommandFailed(c)) => assert_eq!(c.subcommand, "run"),
                other => panic!("unexpected {other:?}"),
            }
        }
        other => panic!("unexpected {other:?}"),
    }
    assert!(matches!(p.next().unwrap(), Action::Close(ref d) if d == "/r1"));
    assert!(matches!(p.next().unwrap(), Action::Finish));
}

#[test]
fn unexpected_pairing_surfaces_from_engine() {
    let mut p = Propagation::on_roots(
        Source::Test,
        CargoSubcommand::Check,
        Vec::new(),
        Some("foo".to_string()),
        strings(&["/r1"]),
        None,
        false,
    );
    assert!(matches!(p.next().unwrap(), Action::Open(ref d) if d == "/r1"));
    assert!(matches!(p.next(), Err(Error::UnexpectedSourceSubcommandPairing(..))));
    assert!(matches!(p.next().unwrap(), Action::Close(ref d) if d == "/r1"));
    assert!(matches!(p.next().unwrap(), Action::Finish));
}

#[test]
fn empty_recursive_call_is_silent() {
    let mut p = Propagation::on_roots(
        Source::CargoNested,
        CargoSubcommand::Build,
        Vec::new(),
        None,
        Vec::new(),
        Some("/ws".to_string()),
        true,
    );
    assert!(matches!(p.next().unwrap(), Action::Finish));
}

#[test]
fn delimiter_lines() {
    let d = Delimiter::new("/ws/P/vendor/sub");
    assert_eq!(d.message(true), "<<< /ws/P/vendor/sub");
    assert_eq!(d.message(false), ">>> /ws/P/vendor/sub");
}

#[test]
fn abandon_leaves_only_closing() {
    let mut p = Propagation::nested(CargoSubcommand::Build, Vec::new(), "/ws".to_string(), None);
    assert!(matches!(p.next().unwrap(), Action::ListRoots { .. }));
    p.roots_listed(strings(&["/ws/a", "/ws/b"]));
    assert!(matches!(p.next().unwrap(), Action::Open(ref d) if d == "/ws/a"));
    assert!(matches!(p.next().unwrap(), Action::Run { .. }));
    assert!(matches!(p.next().unwrap(), Action::ListRoots { dir: Some(ref d) } if d == "/ws/a"));
    p.abandon();
    assert!(matches!(p.next().unwrap(), Action::Close(ref d) if d == "/ws/a"));
    assert!(matches!(p.next().unwrap(), Action::Finish));
}
