use nested_workspace::command::is_cargo_file_stem;
use nested_workspace::process::classify_command_line;
use nested_workspace::{parse_cargo_command, parse_cargo_subcommand, CargoSubcommand, Error};

fn strings(v: &[&str]) -> Vec<String> {
    v.iter().map(|s| s.to_string()).collect()
}

#[test]
fn non_cargo_program_is_malformed() {
    for tokens in [
        vec!["rustc", "build"],
        vec!["/usr/bin/make", "check", "-j4"],
        vec!["cargox", "test"],
        vec!["my-cargo", "run"],
        vec!["Cargo", "build"],
    ] {
        let r = parse_cargo_command(&strings(&tokens));
        assert!(matches!(r, Err(Error::MalformedInvocation)), "{tokens:?}");
    }
}

#[test]
fn empty_command_line_is_malformed() {
    let r = parse_cargo_command(&Vec::new());
    assert!(matches!(r, Err(Error::MalformedInvocation)));
}

#[test]
fn cargo_without_subcommand_is_missing_subcommand() {
    let r = parse_cargo_command(&strings(&["cargo"]));
    assert!(matches!(r, Err(Error::MissingSubcommand)));
    let r = parse_cargo_subcommand(&Vec::new());
    assert!(matches!(r, Err(Error::MissingSubcommand)));
}

#[test]
fn keywords_round_trip_with_their_arguments() {
    let args = ["--offline", "-p", "x y", "--", "'quoted'"];
    for (keyword, expected) in [
        ("build", CargoSubcommand::Build),
        ("check", CargoSubcommand::Check),
        ("run", CargoSubcommand::Run),
        ("test", CargoSubcommand::Test),
    ] {
        let mut tokens = vec!["/home/u/.cargo/bin/cargo", keyword];
        tokens.extend(args);
        let (sub, rest) = parse_cargo_command(&strings(&tokens)).unwrap();
        assert_eq!(format!("{sub:?}"), format!("{expected:?}"));
        assert_eq!(rest, strings(&args));
    }
}

#[test]
fn other_token_is_kept_verbatim() {
    for token in ["fmt", "BUILD", "nw", "clippy", "b\u{e9}"] {
        let (sub, rest) = parse_cargo_command(&strings(&["cargo", token, "--all"])).unwrap();
        match sub {
            CargoSubcommand::Other(t) => assert_eq!(t, token),
            other => panic!("unexpected {other:?}"),
        }
        assert_eq!(rest, strings(&["--all"]));
    }
}

#[test]
fn plugin_names_are_cargo_invocations() {
    let (sub, rest) = parse_cargo_command(&strings(&["cargo-nested", "check"])).unwrap();
    assert!(matches!(sub, CargoSubcommand::Check));
    assert!(rest.is_empty());
    let (sub, _) = parse_cargo_command(&strings(&["/opt/bin/cargo-clippy", "clippy"])).unwrap();
    assert!(matches!(sub, CargoSubcommand::Other(ref t) if t == "clippy"));
    let (sub, _) = parse_cargo_command(&strings(&["cargo.exe", "test"])).unwrap();
    assert!(matches!(sub, CargoSubcommand::Test));
}

#[test]
fn cargo_file_stems() {
    assert!(is_cargo_file_stem(&Some("cargo".to_string())));
    assert!(is_cargo_file_stem(&Some("cargo-nw".to_string())));
    assert!(is_cargo_file_stem(&Some("cargo-".to_string())));
    assert!(!is_cargo_file_stem(&Some("carg".to_string())));
    assert!(!is_cargo_file_stem(&Some("cargo_x".to_string())));
    assert!(!is_cargo_file_stem(&None));
}

#[test]
fn classify_walks_past_other_programs() {
    assert!(matches!(classify_command_line(&strings(&["bash", "-c", "x"])), Ok(None)));
    assert!(matches!(classify_command_line(&strings(&["cargo"])), Err(Error::MissingSubcommand)));
    let r = classify_command_line(&strings(&["cargo", "run", "--release"])).unwrap();
    let (sub, rest) = r.unwrap();
    assert!(matches!(sub, CargoSubcommand::Run));
    assert_eq!(rest, strings(&["--release"]));
}

#[test]
fn subcommand_tokens() {
    assert_eq!(CargoSubcommand::Build.as_str(), "build");
    assert_eq!(CargoSubcommand::Check.as_str(), "check");
    assert_eq!(CargoSubcommand::Run.as_str(), "run");
    assert_eq!(CargoSubcommand::Test.as_str(), "test");
    assert_eq!(CargoSubcommand::Other("fmt".to_string()).as_str(), "fmt");
}
