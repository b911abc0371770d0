use vstd::prelude::*;

use crate::command::{classifies, file_stem_of, is_cargo_stem, parse_cargo_command, CargoSubcommand};
use crate::error::Error;
use crate::text::views;

verus! {

#[verifier::external_type_specification]
#[verifier::external_body]
pub struct ExSystem(sysinfo::System);

#[verifier::external_type_specification]
#[verifier::external_body]
pub struct ExPid(sysinfo::Pid);

/// The processes that a snapshot holds, by id: each with the id of its
/// parent, if it has one, and its command line, one string per argument.
pub uninterp spec fn process_table(system: sysinfo::System) -> Map<
    u32,
    (Option<u32>, Seq<Seq<char>>),
>;

/// Relies on `sysinfo::Pid::as_u32`: the number of a process id.
pub assume_specification[ sysinfo::Pid::as_u32 ](pid: sysinfo::Pid) -> u32;

/// Relies on `sysinfo::get_current_pid`: the id of this process, or a
/// message where the platform cannot tell it.
pub assume_specification[ sysinfo::get_current_pid ]() -> Result<sysinfo::Pid, &'static str>;

/// Relies on `sysinfo::System::new_with_specifics`: a snapshot of the process
/// table that holds each process's parent and command line.
#[verifier::external_body]
fn process_snapshot() -> sysinfo::System {
    sysinfo::System::new_with_specifics(
        sysinfo::RefreshKind::nothing().with_processes(
            sysinfo::ProcessRefreshKind::nothing().with_cmd(sysinfo::UpdateKind::Always),
        ),
    )
}

/// Relies on `sysinfo::System::processes`: the snapshot's processes, one
/// entry per process id.
#[verifier::external_body]
fn process_count(system: &sysinfo::System) -> (r: usize)
    ensures
        r == process_table(*system).len(),
{
    system.processes().len()
}

/// Relies on `sysinfo::System::process`: the process with the given id in
/// the snapshot, if there is one, as its parent's id (`Process::parent`) and
/// its command line (`Process::cmd`, each argument converted to a string;
/// bytes that are not UTF-8 become replacement characters).
#[verifier::external_body]
fn lookup_process(system: &sysinfo::System, id: u32) -> (r: Option<(Option<u32>, Vec<String>)>)
    ensures
        match r {
            Some(e) => process_table(*system).contains_key(id) && process_table(*system)[id] == (
                e.0,
                views(e.1@),
            ),
            None => !process_table(*system).contains_key(id),
        },
{
    system.process(sysinfo::Pid::from_u32(id)).map(
        |p| (p.parent().map(|q| q.as_u32()), p.cmd().iter().map(|a| a.to_string_lossy().into_owned()).collect())
    )
}

/// The command line `c` runs cargo itself or a cargo plugin.
pub open spec fn is_cargo_line(c: Seq<Seq<char>>) -> bool {
    c.len() > 0 && is_cargo_stem(file_stem_of(c[0]))
}

/// `rest` are the arguments of subcommand `sub` on the cargo command line `c`.
pub open spec fn parses_to(c: Seq<Seq<char>>, sub: CargoSubcommand, rest: Seq<Seq<char>>) -> bool {
    &&& c.len() >= 2
    &&& is_cargo_line(c)
    &&& classifies(c[1], sub)
    &&& rest == c.skip(2)
}

/// What looking up the parent of process `id` in the table `t` gives: the
/// parent's id, or the error that ends the walk.
pub open spec fn parent_in(t: Map<u32, (Option<u32>, Seq<Seq<char>>)>, id: u32) -> Result<
    u32,
    Error,
> {
    if !t.contains_key(id) {
        Err(Error::ProcessLookupFailed(id))
    } else {
        match t[id].0 {
            None => Err(Error::NoBuildToolAncestorFound),
            Some(p) => if !t.contains_key(p) {
                Err(Error::ProcessLookupFailed(p))
            } else {
                Ok(p)
            },
        }
    }
}

/// The nearest ancestor of process `id` in the table `t` that runs cargo,
/// taking at most `fuel` steps up; or the error that ends the walk first.
/// Cargo run without a subcommand ends the walk too.
pub open spec fn nearest_cargo_ancestor(
    t: Map<u32, (Option<u32>, Seq<Seq<char>>)>,
    id: u32,
    fuel: nat,
) -> Result<u32, Error>
    decreases fuel,
{
    if fuel == 0 {
        Err(Error::NoBuildToolAncestorFound)
    } else {
        match parent_in(t, id) {
            Err(e) => Err(e),
            Ok(p) => if !is_cargo_line(t[p].1) {
                nearest_cargo_ancestor(t, p, (fuel - 1) as nat)
            } else if t[p].1.len() < 2 {
                Err(Error::MissingSubcommand)
            } else {
                Ok(p)
            },
        }
    }
}

/// Decides one step of the walk up the process tree on the command line
/// `tokens` of the next ancestor: a cargo invocation is the detected one
/// (`Some`), any other command line sends the walk one step further up
/// (`None`), and cargo without a subcommand ends the walk with an error.
pub fn classify_command_line(tokens: &Vec<String>) -> (r: Result<
    Option<(CargoSubcommand, Vec<String>)>,
    Error,
>)
    ensures
        !is_cargo_line(views(tokens@)) ==> r == Ok::<
            Option<(CargoSubcommand, Vec<String>)>,
            Error,
        >(None),
        (tokens.len() == 1 && is_cargo_line(views(tokens@))) ==> r == Err::<
            Option<(CargoSubcommand, Vec<String>)>,
            Error,
        >(Error::MissingSubcommand),
        tokens.len() >= 2 && is_cargo_line(views(tokens@)) ==> r is Ok && r->Ok_0 is Some
            && parses_to(views(tokens@), r->Ok_0->Some_0.0, views(r->Ok_0->Some_0.1@)),
{
    proof {
        if tokens.len() > 0 {
            assert(views(tokens@)[0] == tokens@[0]@);
        }
        if tokens.len() > 1 {
            assert(views(tokens@)[1] == tokens@[1]@);
            assert(views(tokens@.skip(2)) =~= views(tokens@).skip(2));
        }
    }
    match parse_cargo_command(tokens) {
        Ok(parsed) => Ok(Some(parsed)),
        Err(Error::MalformedInvocation) => Ok(None),
        Err(e) => Err(e),
    }
}

/// The id of the parent of process `id` in `system`, and the parent's
/// command line.
pub fn parent_command(system: &sysinfo::System, id: u32) -> (r: Result<(u32, Vec<String>), Error>)
    ensures
        match parent_in(process_table(*system), id) {
            Ok(p) => r is Ok && r->Ok_0.0 == p && views(r->Ok_0.1@) == process_table(*system)[p].1,
            Err(e) => r == Err::<(u32, Vec<String>), Error>(e),
        },
{
    let parent_id = match lookup_process(system, id) {
        Some((Some(p), _)) => p,
        Some((None, _)) => {
            return Err(Error::NoBuildToolAncestorFound);
        },
        None => {
            return Err(Error::ProcessLookupFailed(id));
        },
    };
    match lookup_process(system, parent_id) {
        Some((_, command)) => Ok((parent_id, command)),
        None => Err(Error::ProcessLookupFailed(parent_id)),
    }
}

/// Walks up the process tree of `system` from process `id` to the nearest
/// ancestor that is a cargo invocation, and gives its subcommand and the
/// arguments after it. The walk takes at most as many steps as the snapshot
/// holds processes, which an acyclic ancestry never exceeds.
pub fn parent_cargo_command_from(system: &sysinfo::System, id: u32) -> (r: Result<
    (CargoSubcommand, Vec<String>),
    Error,
>)
    ensures
        match nearest_cargo_ancestor(process_table(*system), id, process_table(*system).len()) {
            Ok(p) => r is Ok && parses_to(
                process_table(*system)[p].1,
                r->Ok_0.0,
                views(r->Ok_0.1@),
            ),
            Err(e) => r == Err::<(CargoSubcommand, Vec<String>), Error>(e),
        },
{
    let ghost t = process_table(*system);
    let mut cur = id;
    let mut steps_left = process_count(system);
    let ghost start = nearest_cargo_ancestor(t, id, t.len());
    loop
        invariant
            t == process_table(*system),
            start == nearest_cargo_ancestor(t, id, t.len()),
            start == nearest_cargo_ancestor(t, cur, steps_left as nat),
        decreases steps_left,
    {
        if steps_left == 0 {
            return Err(Error::NoBuildToolAncestorFound);
        }
        assert(nearest_cargo_ancestor(t, cur, steps_left as nat) == match parent_in(t, cur) {
            Err(e) => Err(e),
            Ok(p) => if !is_cargo_line(t[p].1) {
                nearest_cargo_ancestor(t, p, (steps_left - 1) as nat)
            } else if t[p].1.len() < 2 {
                Err(Error::MissingSubcommand)
            } else {
                Ok(p)
            },
        });
        let (parent_id, command) = match parent_command(system, cur) {
            Ok(found) => found,
            Err(e) => {
                return Err(e);
            },
        };
        match classify_command_line(&command) {
            Ok(Some((sub, rest))) => {
                return Ok((sub, rest));
            },
            Ok(None) => {
                cur = parent_id;
            },
            Err(e) => {
                return Err(e);
            },
        }
        steps_left = steps_left - 1;
    }
}

/// The subcommand and arguments of the nearest cargo invocation among the
/// ancestors of this process, in a snapshot of the process table taken now.
pub fn parent_cargo_command() -> (r: Result<(CargoSubcommand, Vec<String>), Error>)
    ensures
        r is Ok ==> exists|c: Seq<Seq<char>>| #[trigger] parses_to(c, r->Ok_0.0, views(r->Ok_0.1@)),
        r is Err ==> r->Err_0 is ProcessLookupFailed || r->Err_0 is NoBuildToolAncestorFound
            || r->Err_0 is MissingSubcommand || r->Err_0 is CurrentProcessUnknown,
{
    let id = match sysinfo::get_current_pid() {
        Ok(pid) => pid.as_u32(),
        Err(_) => {
            return Err(Error::CurrentProcessUnknown);
        },
    };
    let system = process_snapshot();
    let r = parent_cargo_command_from(&system, id);
    proof {
        let t = process_table(system);
        lemma_walk_errors(t, id, t.len());
        if let Ok(p) = nearest_cargo_ancestor(t, id, t.len()) {
            assert(parses_to(t[p].1, r->Ok_0.0, views(r->Ok_0.1@)));
        }
    }
    r
}

/// The walk up the process tree ends only in a lookup failure, at the top
/// of the tree, or at cargo without a subcommand.
proof fn lemma_walk_errors(t: Map<u32, (Option<u32>, Seq<Seq<char>>)>, id: u32, fuel: nat)
    ensures
        nearest_cargo_ancestor(t, id, fuel) is Err ==> {
            let e = nearest_cargo_ancestor(t, id, fuel)->Err_0;
            e is ProcessLookupFailed || e is NoBuildToolAncestorFound || e is MissingSubcommand
        },
    decreases fuel,
{
    if fuel > 0 {
        if let Ok(p) = parent_in(t, id) {
            lemma_walk_errors(t, p, (fuel - 1) as nat);
        }
    }
}

} // verus!
