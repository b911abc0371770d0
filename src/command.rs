use vstd::prelude::*;

use crate::error::Error;

use crate::reentrancy_guard::{guard_name, reentrancy_guard_from_package_name};
use crate::text::{same, starts_with, views};

verus! {

/// The cargo subcommands that propagation tells apart.
#[derive(Clone, Debug)]
pub enum CargoSubcommand {
    Build,
    Check,
    Run,
    Test,
    Other(String),
}

/// Why propagation was triggered.
#[derive(Clone, Copy, Debug, PartialEq, Eq, Structural)]
pub enum Source {
    /// A build script of the parent package.
    BuildScript,
    /// A test of the parent package.
    Test,
    /// An explicit `cargo nested` invocation.
    CargoNested,
}

/// A command to run: `cargo`, a subcommand token and its arguments, in an
/// environment with some variables removed and at most one variable set.
#[derive(Clone, Debug)]
pub struct CargoCommand {
    pub program: String,
    pub subcommand: String,
    pub args: Vec<String>,
    pub env_remove: Vec<String>,
    pub env_set: Option<(String, String)>,
}

/// The token that names `sub` on a command line.
pub open spec fn token_of(sub: CargoSubcommand) -> Seq<char> {
    match sub {
        CargoSubcommand::Build => "build"@,
        CargoSubcommand::Check => "check"@,
        CargoSubcommand::Run => "run"@,
        CargoSubcommand::Test => "test"@,
        CargoSubcommand::Other(s) => s@,
    }
}

/// `sub` is what the token `t` classifies as: one of the four keywords, or
/// else `Other` holding `t` unchanged.
pub open spec fn classifies(t: Seq<char>, sub: CargoSubcommand) -> bool {
    if t == "build"@ {
        sub is Build
    } else if t == "check"@ {
        sub is Check
    } else if t == "run"@ {
        sub is Run
    } else if t == "test"@ {
        sub is Test
    } else {
        sub is Other && sub->Other_0@ == t
    }
}

/// A file stem that names cargo itself or a cargo plugin.
pub open spec fn is_cargo_stem(stem: Option<Seq<char>>) -> bool {
    match stem {
        Some(s) => s == "cargo"@ || ("cargo-"@.len() <= s.len() && s.take(
            "cargo-"@.len() as int,
        ) == "cargo-"@),
        None => false,
    }
}

/// The file stem of a path, as `std::path::Path::file_stem` gives it.
pub uninterp spec fn file_stem_of(path: Seq<char>) -> Option<Seq<char>>;

/// Relies on `std::path::Path::file_stem`: the file name of `path` without
/// its extension, if it has a file name. The input is UTF-8, so the stem is
/// too and converts without loss.
#[verifier::external_body]
fn file_stem(path: &str) -> (r: Option<String>)
    ensures
        match r {
            Some(s) => file_stem_of(path@) == Some(s@),
            None => file_stem_of(path@) is None,
        },
{
    std::path::Path::new(path).file_stem().map(|s| s.to_string_lossy().into_owned())
}

/// Whether a file stem names cargo itself (`cargo`) or a cargo plugin
/// (`cargo-<name>`).
pub fn is_cargo_file_stem(stem: &Option<String>) -> (r: bool)
    ensures
        r == is_cargo_stem(
            match stem {
                Some(s) => Some(s@),
                None => None,
            },
        ),
{
    match stem {
        Some(s) => same(s, "cargo") || starts_with(s.as_str(), "cargo-"),
        None => false,
    }
}

/// The strings of `v` from index `start` on, copied.
fn clone_from(v: &Vec<String>, start: usize) -> (r: Vec<String>)
    requires
        start <= v.len(),
    ensures
        r@ == v@.skip(start as int),
{
    let mut r: Vec<String> = Vec::new();
    let mut i: usize = start;
    while i < v.len()
        invariant
            start <= i <= v.len(),
            r@ == v@.subrange(start as int, i as int),
        decreases v.len() - i,
    {
        let s = v[i].clone();
        r.push(s);
        assert(r@ =~= v@.subrange(start as int, i + 1));
        i = i + 1;
    }
    assert(v@.subrange(start as int, v.len() as int) =~= v@.skip(start as int));
    r
}

/// Classifies the subcommand token `args[0]` and hands back the arguments
/// after it.
pub fn parse_cargo_subcommand(args: &Vec<String>) -> (r: Result<
    (CargoSubcommand, Vec<String>),
    Error,
>)
    ensures
        args.len() == 0 ==> r == Err::<(CargoSubcommand, Vec<String>), Error>(
            Error::MissingSubcommand,
        ),
        args.len() > 0 ==> r is Ok && classifies(args[0]@, r->Ok_0.0) && r->Ok_0.1@ == args@.skip(1),
{
    if args.len() == 0 {
        return Err(Error::MissingSubcommand);
    }
    let arg0 = &args[0];
    proof {
        reveal_strlit("build");
        reveal_strlit("check");
        reveal_strlit("run");
        reveal_strlit("test");
    }
    let subcommand = if same(arg0, "build") {
        CargoSubcommand::Build
    } else if same(arg0, "check") {
        CargoSubcommand::Check
    } else if same(arg0, "run") {
        CargoSubcommand::Run
    } else if same(arg0, "test") {
        CargoSubcommand::Test
    } else {
        CargoSubcommand::Other(arg0.clone())
    };
    Ok((subcommand, clone_from(args, 1)))
}

/// Parses a cargo command line: `args[0]` must name cargo or a cargo plugin,
/// `args[1]` is the subcommand, and the rest are its arguments.
pub fn parse_cargo_command(args: &Vec<String>) -> (r: Result<
    (CargoSubcommand, Vec<String>),
    Error,
>)
    ensures
        (args.len() == 0 || !is_cargo_stem(file_stem_of(args[0]@))) ==> r == Err::<
            (CargoSubcommand, Vec<String>),
            Error,
        >(Error::MalformedInvocation),
        (args.len() == 1 && is_cargo_stem(file_stem_of(args[0]@))) ==> r == Err::<
            (CargoSubcommand, Vec<String>),
            Error,
        >(Error::MissingSubcommand),
        (args.len() >= 2 && is_cargo_stem(file_stem_of(args[0]@))) ==> r is Ok && classifies(
            args[1]@,
            r->Ok_0.0,
        ) && r->Ok_0.1@ == args@.skip(2),
{
    if args.len() == 0 {
        return Err(Error::MalformedInvocation);
    }
    let stem = file_stem(args[0].as_str());
    if !is_cargo_file_stem(&stem) {
        return Err(Error::MalformedInvocation);
    }
    let rest = clone_from(args, 1);
    let r = parse_cargo_subcommand(&rest);
    proof {
        if args.len() >= 2 {
            assert(rest@[0] == args@[1]);
            assert(args@.skip(1).skip(1) =~= args@.skip(2));
        }
    }
    r
}

impl CargoSubcommand {
    /// A copy of this subcommand.
    pub fn duplicate(&self) -> (r: CargoSubcommand)
        ensures
            r == *self,
    {
        match self {
            CargoSubcommand::Build => CargoSubcommand::Build,
            CargoSubcommand::Check => CargoSubcommand::Check,
            CargoSubcommand::Run => CargoSubcommand::Run,
            CargoSubcommand::Test => CargoSubcommand::Test,
            CargoSubcommand::Other(other) => CargoSubcommand::Other(other.clone()),
        }
    }

    /// The token that names this subcommand on a command line.
    pub fn as_str(&self) -> (r: String)
        ensures
            r@ == token_of(*self),
    {
        match self {
            CargoSubcommand::Build => String::from_str("build"),
            CargoSubcommand::Check => String::from_str("check"),
            CargoSubcommand::Run => String::from_str("run"),
            CargoSubcommand::Test => String::from_str("test"),
            CargoSubcommand::Other(other) => other.clone(),
        }
    }
}

impl Source {
    /// How this trigger is named in messages.
    pub fn name(&self) -> (r: &'static str)
        ensures
            r@ == source_name(*self),
    {
        match self {
            Source::BuildScript => "build script",
            Source::Test => "test",
            Source::CargoNested => "cargo nested",
        }
    }
}

/// How a trigger is named in messages.
pub open spec fn source_name(source: Source) -> Seq<char> {
    match source {
        Source::BuildScript => "build script"@,
        Source::Test => "test"@,
        Source::CargoNested => "cargo nested"@,
    }
}

/// The subcommand token replayed on nested roots for `sub` detected under
/// `source`; `None` where the pair is not one that propagation expects.
pub open spec fn emitted_subcommand(source: Source, sub: CargoSubcommand) -> Option<Seq<char>> {
    match source {
        Source::BuildScript => Some(if sub is Check { "check"@ } else { "build"@ }),
        Source::Test => if sub is Test { Some("test"@) } else { None },
        Source::CargoNested => Some(token_of(sub)),
    }
}

/// The whole-workspace flag.
pub open spec fn workspace_flag() -> Seq<char> {
    "--workspace"@
}

/// The fixed arguments of a command replayed from a build script: verbose,
/// offline, whole workspace.
pub open spec fn build_or_check_arg_list() -> Seq<Seq<char>> {
    seq!["-vv"@, "--offline"@, workspace_flag()]
}

/// `args` without whole-workspace flags and, where `package` is known,
/// without `-p <package>` or `--package <package>` pairs that name it.
pub open spec fn filtered(package: Option<Seq<char>>, args: Seq<Seq<char>>) -> Seq<Seq<char>>
    decreases args.len(),
{
    if args.len() == 0 {
        seq![]
    } else if (args[0] == "-p"@ || args[0] == "--package"@) && args.len() >= 2 && package
        == Some(args[1]) {
        filtered(package, args.skip(2))
    } else if args[0] == workspace_flag() {
        filtered(package, args.skip(1))
    } else {
        seq![args[0]] + filtered(package, args.skip(1))
    }
}

/// The arguments replayed on nested roots under `source`, given the caller's
/// arguments `args`.
pub open spec fn emitted_args(
    source: Source,
    package: Option<Seq<char>>,
    args: Seq<Seq<char>>,
) -> Seq<Seq<char>> {
    match source {
        Source::BuildScript => build_or_check_arg_list(),
        Source::Test => seq![workspace_flag()] + filtered(package, args),
        Source::CargoNested => args,
    }
}

/// The variables that name the running cargo, compiler and toolchain; they
/// are removed so that a nested root works out its own.
pub open spec fn removed_vars() -> Seq<Seq<char>> {
    seq!["CARGO"@, "RUSTC"@, "RUSTUP_TOOLCHAIN"@]
}

/// The characters of an optional string.
pub open spec fn opt_view(s: Option<String>) -> Option<Seq<char>> {
    match s {
        Some(v) => Some(v@),
        None => None,
    }
}

/// `c` is the command that replays `sub`, detected under `source`, with the
/// caller's arguments `args`, for the package named `package`.
pub open spec fn is_command_for(
    c: CargoCommand,
    source: Source,
    package: Option<Seq<char>>,
    sub: CargoSubcommand,
    args: Seq<Seq<char>>,
) -> bool {
    &&& c.program@ == "cargo"@
    &&& Some(c.subcommand@) == emitted_subcommand(source, sub)
    &&& views(c.args@) == emitted_args(source, package, args)
    &&& views(c.env_remove@) == removed_vars()
    &&& match source {
        Source::BuildScript => c.env_set is Some && c.env_set->Some_0.0@ == guard_name(
            package->Some_0,
        ) && c.env_set->Some_0.1@ == "1"@,
        _ => c.env_set is None,
    }
}

/// Whether a command can be synthesized for `sub` detected under `source`,
/// for the package named `package`.
pub open spec fn synthesizable(source: Source, package: Option<Seq<char>>, sub: CargoSubcommand) -> bool {
    emitted_subcommand(source, sub) is Some && (source != Source::BuildScript || package is Some)
}

/// Appends a copy of `s` to `v`.
fn push_copy(v: &mut Vec<String>, s: &String)
    ensures
        views(final(v)@) == views(old(v)@).push(s@),
{
    v.push(s.clone());
    assert(views(final(v)@) =~= views(old(v)@).push(s@));
}

/// Appends a string holding `s` to `v`.
fn push_str(v: &mut Vec<String>, s: &str)
    ensures
        views(final(v)@) == views(old(v)@).push(s@),
{
    v.push(String::from_str(s));
    assert(views(final(v)@) =~= views(old(v)@).push(s@));
}

/// The fixed arguments of a command replayed from a build script.
pub fn build_or_check_args() -> (r: Vec<String>)
    ensures
        views(r@) == build_or_check_arg_list(),
{
    let mut r: Vec<String> = Vec::new();
    push_str(&mut r, "-vv");
    push_str(&mut r, "--offline");
    push_str(&mut r, "--workspace");
    assert(views(r@) =~= build_or_check_arg_list());
    r
}

/// Copies of the strings of `v`.
pub fn copy_all(v: &Vec<String>) -> (r: Vec<String>)
    ensures
        r@ == v@,
{
    clone_from(v, 0)
}

/// `args_in` without whole-workspace flags and without package selections
/// that name `package_name`.
pub fn filter_package_and_workspace(package_name: &Option<String>, args_in: &Vec<String>) -> (r:
    Vec<String>)
    ensures
        views(r@) == filtered(opt_view(*package_name), views(args_in@)),
{
    let ghost a = views(args_in@);
    let ghost p = opt_view(*package_name);
    let mut args_out: Vec<String> = Vec::new();
    let mut i: usize = 0;
    assert(a.skip(0) =~= a);
    while i < args_in.len()
        invariant
            i <= args_in.len(),
            a == views(args_in@),
            p == opt_view(*package_name),
            filtered(p, a) == views(args_out@) + filtered(p, a.skip(i as int)),
        decreases args_in.len() - i,
    {
        let arg = &args_in[i];
        assert(a.skip(i as int)[0] == arg@);
        assert(a.skip(i as int).skip(1) =~= a.skip(i + 1));
        let selects_package = match package_name {
            Some(name) => i + 1 < args_in.len() && args_in[i + 1] == *name,
            None => false,
        };
        if (same(arg, "-p") || same(arg, "--package")) && selects_package {
            assert(a.skip(i as int)[1] == args_in@[i + 1]@);
            assert(a.skip(i as int).skip(2) =~= a.skip(i + 2));
            i = i + 2;
        } else if same(arg, "--workspace") {
            i = i + 1;
        } else {
            push_copy(&mut args_out, arg);
            assert(views(args_out@) + filtered(p, a.skip(i + 1)) =~= views(args_out@).drop_last()
                + (seq![arg@] + filtered(p, a.skip(i + 1))));
            i = i + 1;
        }
    }
    assert(a.skip(i as int) =~= seq![]);
    assert(views(args_out@) + seq![] =~= views(args_out@));
    args_out
}

/// Parses the command line of `cargo nw <subcommand> <args>...`: cargo (or a
/// cargo plugin) run with `nw`, then the subcommand to replay and its
/// arguments.
pub fn parse_args(args: &Vec<String>) -> (r: Result<(CargoSubcommand, Vec<String>), Error>)
    ensures
        (args.len() == 0 || !is_cargo_stem(file_stem_of(args[0]@))) ==> r == Err::<
            (CargoSubcommand, Vec<String>),
            Error,
        >(Error::MalformedInvocation),
        (args.len() == 1 && is_cargo_stem(file_stem_of(args[0]@))) ==> r == Err::<
            (CargoSubcommand, Vec<String>),
            Error,
        >(Error::MissingSubcommand),
        (args.len() >= 2 && is_cargo_stem(file_stem_of(args[0]@)) && args[1]@ != "nw"@) ==> r
            == Err::<(CargoSubcommand, Vec<String>), Error>(Error::NotNestedCommand),
        (args.len() == 2 && is_cargo_stem(file_stem_of(args[0]@)) && args[1]@ == "nw"@) ==> r
            == Err::<(CargoSubcommand, Vec<String>), Error>(Error::MissingSubcommand),
        (args.len() >= 3 && is_cargo_stem(file_stem_of(args[0]@)) && args[1]@ == "nw"@) ==> r is Ok
            && classifies(args[2]@, r->Ok_0.0) && r->Ok_0.1@ == args@.skip(3),
{
    let (subcommand, rest) = match parse_cargo_command(args) {
        Ok(parsed) => parsed,
        Err(e) => {
            return Err(e);
        },
    };
    proof {
        reveal_strlit("nw");
        reveal_strlit("build");
        reveal_strlit("check");
        reveal_strlit("run");
        reveal_strlit("test");
    }
    let is_nw = match &subcommand {
        CargoSubcommand::Other(other) => same(other, "nw"),
        _ => false,
    };
    if !is_nw {
        proof {
            if args@[1]@ == "nw"@ {
                assert("nw"@ != "build"@) by {
                    assert("nw"@.len() != "build"@.len());
                }
                assert("nw"@ != "check"@) by {
                    assert("nw"@.len() != "check"@.len());
                }
                assert("nw"@ != "test"@) by {
                    assert("nw"@.len() != "test"@.len());
                }
                assert("nw"@ != "run"@) by {
                    assert("nw"@[0] != "run"@[0]);
                }
                assert(classifies(args@[1]@, subcommand));
            }
        }
        return Err(Error::NotNestedCommand);
    }
    let r = parse_cargo_subcommand(&rest);
    proof {
        if args.len() >= 3 {
            assert(rest@[0] == args@[2]);
            assert(args@.skip(2).skip(1) =~= args@.skip(3));
        }
    }
    r
}

/// Synthesizes the command that replays `subcommand`, detected under
/// `source` with arguments `args`, on a nested root, for the package named
/// `package_name`.
pub fn build_cargo_command(
    source: Source,
    package_name: &Option<String>,
    subcommand: &CargoSubcommand,
    args: &Vec<String>,
) -> (r: Result<CargoCommand, Error>)
    ensures
        emitted_subcommand(source, *subcommand) is None ==> r == Err::<CargoCommand, Error>(
            Error::UnexpectedSourceSubcommandPairing(source, *subcommand),
        ),
        emitted_subcommand(source, *subcommand) is Some && source == Source::BuildScript
            && package_name is None ==> r == Err::<CargoCommand, Error>(Error::MissingPackageName),
        emitted_subcommand(source, *subcommand) is Some && (source != Source::BuildScript
            || package_name is Some) ==> r is Ok && is_command_for(
            r->Ok_0,
            source,
            opt_view(*package_name),
            *subcommand,
            views(args@),
        ),
{
    let (sub, out_args) = match (source, subcommand) {
        (Source::BuildScript, CargoSubcommand::Check) => (
            String::from_str("check"),
            build_or_check_args(),
        ),
        (Source::BuildScript, _) => (String::from_str("build"), build_or_check_args()),
        (Source::Test, CargoSubcommand::Test) => {
            let mut out: Vec<String> = Vec::new();
            push_str(&mut out, "--workspace");
            let mut rest = filter_package_and_workspace(package_name, args);
            let ghost first = views(out@);
            let ghost tail = views(rest@);
            out.append(&mut rest);
            assert(views(out@) =~= first + tail);
            (String::from_str("test"), out)
        },
        (Source::CargoNested, _) => (subcommand.as_str(), copy_all(args)),
        (_, _) => {
            return Err(Error::UnexpectedSourceSubcommandPairing(source, subcommand.duplicate()));
        },
    };
    let mut env_remove: Vec<String> = Vec::new();
    push_str(&mut env_remove, "CARGO");
    push_str(&mut env_remove, "RUSTC");
    push_str(&mut env_remove, "RUSTUP_TOOLCHAIN");
    assert(views(env_remove@) =~= removed_vars());
    let env_set = match source {
        Source::BuildScript => match package_name {
            Some(p) => Some(
                (reentrancy_guard_from_package_name(p.as_str()), String::from_str("1")),
            ),
            None => {
                return Err(Error::MissingPackageName);
            },
        },
        _ => None,
    };
    let c = CargoCommand {
        program: String::from_str("cargo"),
        subcommand: sub,
        args: out_args,
        env_remove,
        env_set,
    };
    assert(c.program@ == "cargo"@);
    assert(Some(c.subcommand@) == emitted_subcommand(source, *subcommand));
    assert(views(c.args@) == emitted_args(source, opt_view(*package_name), views(args@)));
    assert(views(c.env_remove@) == removed_vars());
    Ok(c)
}

/// A replay from a build script never forwards the caller's arguments:
/// whatever they hold, an argument other than the three fixed flags is never
/// among those replayed, and the whole-workspace flag is there exactly once.
pub proof fn build_script_replay_drops_caller_args(
    package: Option<Seq<char>>,
    args: Seq<Seq<char>>,
    a: Seq<char>,
)
    requires
        a != "-vv"@,
        a != "--offline"@,
        a != workspace_flag(),
    ensures
        !emitted_args(Source::BuildScript, package, args).contains(a),
        forall|i: int|
            0 <= i < emitted_args(Source::BuildScript, package, args).len() ==> (emitted_args(
                Source::BuildScript,
                package,
                args,
            )[i] == workspace_flag() <==> i == 2),
{
    reveal_strlit("-vv");
    reveal_strlit("--offline");
    reveal_strlit("--workspace");
    let e = emitted_args(Source::BuildScript, package, args);
    assert(e == build_or_check_arg_list());
    if e.contains(a) {
        let k = choose|k: int| 0 <= k < e.len() && e[k] == a;
        assert(k == 0 || k == 1 || k == 2);
    }
    assert(e[0] != workspace_flag()) by {
        assert(e[0].len() != workspace_flag().len());
    }
    assert(e[1] != workspace_flag()) by {
        assert(e[1][2] != workspace_flag()[2]);
    }
}

} // verus!
