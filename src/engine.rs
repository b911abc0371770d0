use vstd::prelude::*;

use crate::command::{
    build_cargo_command, copy_all, is_command_for, opt_view, synthesizable, token_of, CargoCommand,
    CargoSubcommand, Source,
};
use crate::error::Error;
use crate::text::{joined, same, views};

verus! {

/// Collects what a build script or a test passes on to the propagated
/// subcommand.
pub struct Builder {
    pub source: Source,
    pub args: Vec<String>,
}

/// Propagation triggered from a build script, with no arguments yet.
pub fn build() -> (r: Builder)
    ensures
        r.source == Source::BuildScript,
        r.args@ == Seq::<String>::empty(),
{
    Builder { source: Source::BuildScript, args: Vec::new() }
}

/// Propagation triggered from a test, with no arguments yet.
pub fn test() -> (r: Builder)
    ensures
        r.source == Source::Test,
        r.args@ == Seq::<String>::empty(),
{
    Builder { source: Source::Test, args: Vec::new() }
}

/// One piece of pending work of a propagation run.
#[derive(Debug)]
pub enum Task {
    /// Replay the subcommand on this nested root: open its delimiter, run the
    /// command, and close the delimiter after all work for the root.
    Run(String),
    /// Run the command for this nested root, whose delimiter is open.
    Spawn(String),
    /// Close the delimiter of this nested root.
    Close(String),
    /// Find the nested roots under a directory (`None`: those of the current
    /// package) and replay on each; `top` marks the first level, where
    /// finding none is reported.
    Expand { dir: Option<String>, top: bool },
    /// Print this line on standard output.
    Print(String),
    /// Print this line on standard error.
    Notice(String),
}

/// What the caller must do next for a propagation run.
#[derive(Debug)]
pub enum Action {
    /// Print the opening delimiter of the nested root at this path.
    Open(String),
    /// Run `command` with working directory `dir` and report its outcome with
    /// `command_finished`.
    Run { command: CargoCommand, dir: String },
    /// Print the closing delimiter of the nested root at this path.
    Close(String),
    /// Find the nested roots under `dir` (`None`: those of the current
    /// package) and report them with `roots_listed`.
    ListRoots { dir: Option<String> },
    /// Print this line on standard output.
    Print(String),
    /// Print this line on standard error.
    Notice(String),
    /// Nothing is left to do.
    Finish,
}

/// The state of one propagation run: what is replayed, and the pending work,
/// the next piece last.
pub struct Propagation {
    pub source: Source,
    pub subcommand: CargoSubcommand,
    pub args: Vec<String>,
    pub package_name: Option<String>,
    pub pending: Vec<Task>,
    /// The roots whose delimiters are open, the innermost last.
    pub open: Vec<String>,
    /// Whether the roots being listed are those of the first level.
    pub listing_top: bool,
    /// The directory whose roots are being listed (`None`: the current
    /// package's).
    pub listing_dir: Option<String>,
}

/// Whether `args` ask cargo to stay off the network: `--offline` or
/// `--frozen`.
pub open spec fn has_offline_flag(args: Seq<Seq<char>>) -> bool {
    exists|i: int| 0 <= i < args.len() && (args[i] == "--offline"@ || args[i] == "--frozen"@)
}

/// Replaying `sub` could contend with the parent cargo for its lock: the
/// parent builds or checks, and not offline.
pub open spec fn gate_refuses(sub: CargoSubcommand, args: Seq<Seq<char>>) -> bool {
    (sub is Build || sub is Check) && !has_offline_flag(args)
}

/// The warning given when replaying `sub` is refused.
pub open spec fn refusal_message(sub: CargoSubcommand) -> Seq<char> {
    "cargo::warning=Refusing to "@ + token_of(sub)
        + " nested workspaces as `--offline` was not passed to parent command"@
}

/// The notice given when no nested roots are found under `dir` (`None`: in
/// the current package).
pub open spec fn no_roots_notice(dir: Option<Seq<char>>) -> Seq<char> {
    match dir {
        Some(d) => "Warning: found no nested workspaces"@ + " in `"@ + d + "`"@,
        None => "Warning: found no nested workspaces"@,
    }
}

/// The tasks that replay on each of `roots`, the first of them last, so that
/// it comes next.
pub open spec fn run_tasks(roots: Seq<String>) -> Seq<Task> {
    roots.reverse().map_values(|r: String| Task::Run(r))
}

/// The roots that pending work replays on, next first, leaving aside the
/// roots that listing may still bring in.
pub open spec fn upcoming(pending: Seq<Task>) -> Seq<String>
    decreases pending.len(),
{
    if pending.len() == 0 {
        seq![]
    } else {
        match pending.last() {
            Task::Run(root) => seq![root] + upcoming(pending.drop_last()),
            _ => upcoming(pending.drop_last()),
        }
    }
}

/// Roots that are found are replayed on in the order they were found, and
/// before any work that was pending already.
pub proof fn found_roots_come_first_in_order(pending: Seq<Task>, roots: Seq<String>)
    ensures
        upcoming(pending + run_tasks(roots)) == roots + upcoming(pending),
    decreases roots.len(),
{
    if roots.len() == 0 {
        assert(run_tasks(roots) =~= seq![]);
        assert(pending + run_tasks(roots) =~= pending);
        assert(roots + upcoming(pending) =~= upcoming(pending));
    } else {
        let rest = roots.skip(1);
        found_roots_come_first_in_order(pending, rest);
        assert(run_tasks(roots) =~= run_tasks(rest).push(Task::Run(roots[0])));
        let all = pending + run_tasks(roots);
        assert(all =~= (pending + run_tasks(rest)).push(Task::Run(roots[0])));
        assert(all.drop_last() =~= pending + run_tasks(rest));
        assert(roots =~= seq![roots[0]] + rest);
        assert(roots + upcoming(pending) =~= seq![roots[0]] + (rest + upcoming(pending)));
    }
}

/// The tasks that close the delimiters of `open`, the innermost next.
pub open spec fn close_tasks(open: Seq<String>) -> Seq<Task> {
    open.map_values(|r: String| Task::Close(r))
}

/// The work that follows a replay on `root` under `source`, the next piece
/// last: its command, then for `cargo nested` the search for its own nested
/// roots, then the closing of its delimiter.
pub open spec fn replay_tasks(source: Source, root: String) -> Seq<Task> {
    if source == Source::CargoNested {
        seq![Task::Close(root), Task::Expand { dir: Some(root), top: false }, Task::Spawn(root)]
    } else {
        seq![Task::Close(root), Task::Spawn(root)]
    }
}

/// No pending task can run a command or bring in roots that would.
pub open spec fn runs_nothing(pending: Seq<Task>) -> bool {
    forall|i: int|
        0 <= i < pending.len() ==> !(#[trigger] pending[i] is Run) && !(pending[i] is Spawn) && !(
        pending[i] is Expand)
}

/// Whether `args` hold `--offline` or `--frozen`.
pub fn offline_requested(args: &Vec<String>) -> (r: bool)
    ensures
        r == has_offline_flag(views(args@)),
{
    let mut i: usize = 0;
    while i < args.len()
        invariant
            i <= args.len(),
            forall|j: int|
                0 <= j < i ==> !(views(args@)[j] == "--offline"@ || views(args@)[j] == "--frozen"@),
        decreases args.len() - i,
    {
        if same(&args[i], "--offline") || same(&args[i], "--frozen") {
            assert(views(args@)[i as int] == args@[i as int]@);
            return true;
        }
        i = i + 1;
    }
    false
}

/// Whether replaying `subcommand` with the parent's arguments `args` must be
/// refused: see `gate_refuses`.
pub fn refuses_propagation(subcommand: &CargoSubcommand, args: &Vec<String>) -> (r: bool)
    ensures
        r == gate_refuses(*subcommand, views(args@)),
{
    match subcommand {
        CargoSubcommand::Build | CargoSubcommand::Check => !offline_requested(args),
        _ => false,
    }
}

/// The notice given when no nested roots are found under `dir`.
pub fn no_roots_message(dir: &Option<String>) -> (r: String)
    ensures
        r@ == no_roots_notice(opt_view(*dir)),
{
    match dir {
        Some(d) => {
            let a = joined("Warning: found no nested workspaces", " in `");
            let b = joined(a.as_str(), d.as_str());
            joined(b.as_str(), "`")
        },
        None => String::from_str("Warning: found no nested workspaces"),
    }
}

/// The warning given when replaying `subcommand` is refused.
pub fn refusal_warning(subcommand: &CargoSubcommand) -> (r: String)
    ensures
        r@ == refusal_message(*subcommand),
{
    let token = subcommand.as_str();
    let a = joined("cargo::warning=Refusing to ", token.as_str());
    joined(a.as_str(), " nested workspaces as `--offline` was not passed to parent command")
}

/// Pushes a task that replays on each of `roots`, the first of them on top.
fn push_runs(pending: &mut Vec<Task>, roots: Vec<String>)
    ensures
        final(pending)@ == old(pending)@ + run_tasks(roots@),
{
    let mut roots = roots;
    let ghost all = roots@;
    while roots.len() > 0
        invariant
            roots@ == all.take(roots.len() as int),
            roots.len() <= all.len(),
            pending@ == old(pending)@ + run_tasks(all.skip(roots.len() as int)),
        decreases roots.len(),
    {
        let ghost n = roots.len() as int;
        let root = roots.pop().unwrap();
        assert(root == all[n - 1]);
        pending.push(Task::Run(root));
        assert(roots@ =~= all.take(n - 1));
        assert(run_tasks(all.skip(n - 1)) =~= run_tasks(all.skip(n)).push(Task::Run(all[n - 1])));
    }
    assert(all.skip(0) =~= all);
}

impl Builder {
    /// Passes `arg` on to the subcommand.
    pub fn arg(self, arg: &str) -> (r: Builder)
        ensures
            r.source == self.source,
            views(r.args@) == views(self.args@).push(arg@),
    {
        let mut b = self;
        let ghost before = views(b.args@);
        b.args.push(String::from_str(arg));
        assert(views(b.args@) =~= before.push(arg@));
        b
    }

    /// Passes each of `args` on to the subcommand.
    pub fn args(self, args: Vec<String>) -> (r: Builder)
        ensures
            r.source == self.source,
            r.args@ == self.args@ + args@,
    {
        let mut b = self;
        let mut args = args;
        b.args.append(&mut args);
        b
    }

    /// Starts propagating the parent cargo invocation, `subcommand` with
    /// `subcommand_args`, to the current package's nested roots, on behalf of
    /// the package named `package_name`. A parent that builds or checks
    /// without `--offline` or `--frozen` holds cargo's lock: replaying would
    /// deadlock, so only a warning is given.
    pub fn propagation(
        self,
        subcommand: CargoSubcommand,
        subcommand_args: Vec<String>,
        package_name: Option<String>,
    ) -> (r: Propagation)
        ensures
            r.source == self.source,
            r.subcommand == subcommand,
            r.package_name == package_name,
            !r.listing_top,
            gate_refuses(subcommand, views(subcommand_args@)) ==> r.pending@ == seq![
                Task::Print(r.pending@[0]->Print_0),
            ] && r.pending@[0]->Print_0@ == refusal_message(subcommand) && runs_nothing(
                r.pending@,
            ),
            !gate_refuses(subcommand, views(subcommand_args@)) ==> r.pending@ == seq![
                Task::Expand { dir: None, top: true },
            ] && r.args@ == self.args@ + subcommand_args@,
    {
        let mut pending: Vec<Task> = Vec::new();
        if refuses_propagation(&subcommand, &subcommand_args) {
            pending.push(Task::Print(refusal_warning(&subcommand)));
        } else {
            pending.push(Task::Expand { dir: None, top: true });
        }
        let mut args = self.args;
        let mut rest = subcommand_args;
        args.append(&mut rest);
        Propagation {
            source: self.source,
            subcommand,
            args,
            package_name,
            pending,
            open: Vec::new(),
            listing_top: false,
            listing_dir: None,
        }
    }
}

impl Propagation {
    /// Starts an explicit `cargo nested` run of `subcommand` with `args` on
    /// every nested root found under `dir`, and then on theirs.
    pub fn nested(
        subcommand: CargoSubcommand,
        args: Vec<String>,
        dir: String,
        package_name: Option<String>,
    ) -> (r: Propagation)
        ensures
            r.source == Source::CargoNested,
            r.subcommand == subcommand,
            r.args == args,
            r.package_name == package_name,
            r.pending@ == seq![Task::Expand { dir: Some(dir), top: true }],
            !r.listing_top,
    {
        let mut pending: Vec<Task> = Vec::new();
        pending.push(Task::Expand { dir: Some(dir), top: true });
        Propagation {
            source: Source::CargoNested,
            subcommand,
            args,
            package_name,
            pending,
            open: Vec::new(),
            listing_top: false,
            listing_dir: None,
        }
    }

    /// Starts a run of `subcommand` with `args`, triggered under `source`, on
    /// each of `roots` in order; `dir` is where they were found. With no
    /// roots, a first-level run (`!is_recursive_call`) gives a notice.
    pub fn on_roots(
        source: Source,
        subcommand: CargoSubcommand,
        args: Vec<String>,
        package_name: Option<String>,
        roots: Vec<String>,
        dir: Option<String>,
        is_recursive_call: bool,
    ) -> (r: Propagation)
        ensures
            r.source == source,
            r.subcommand == subcommand,
            r.args == args,
            r.package_name == package_name,
            !r.listing_top,
            roots.len() > 0 ==> r.pending@ == run_tasks(roots@),
            roots.len() == 0 && !is_recursive_call ==> r.pending@.len() == 1
                && r.pending@[0] is Notice && r.pending@[0]->Notice_0@ == no_roots_notice(
                opt_view(dir),
            ),
            roots.len() == 0 && is_recursive_call ==> r.pending@.len() == 0,
    {
        let mut pending: Vec<Task> = Vec::new();
        if roots.len() == 0 {
            if !is_recursive_call {
                pending.push(Task::Notice(no_roots_message(&dir)));
            }
        } else {
            push_runs(&mut pending, roots);
            assert(pending@ =~= run_tasks(roots@));
        }
        Propagation {
            source,
            subcommand,
            args,
            package_name,
            pending,
            open: Vec::new(),
            listing_top: false,
            listing_dir: None,
        }
    }

    /// Ends the run after a failure found by the caller (roots that could not
    /// be listed): all pending work is dropped but the closing of the open
    /// delimiters.
    pub fn abandon(&mut self)
        ensures
            final(self).pending@ == close_tasks(old(self).open@),
            runs_nothing(final(self).pending@),
            final(self).open == old(self).open,
            final(self).source == old(self).source,
            final(self).subcommand == old(self).subcommand,
            final(self).args == old(self).args,
            final(self).package_name == old(self).package_name,
    {
        let mut pending: Vec<Task> = Vec::new();
        let mut i: usize = 0;
        while i < self.open.len()
            invariant
                i <= self.open.len(),
                pending@ == close_tasks(self.open@.take(i as int)),
            decreases self.open.len() - i,
        {
            pending.push(Task::Close(self.open[i].clone()));
            assert(pending@ =~= close_tasks(self.open@.take(i + 1)));
            i = i + 1;
        }
        assert(self.open@.take(i as int) =~= self.open@);
        self.pending = pending;
    }

    /// Takes the next piece of pending work and says what to do for it. A
    /// replay under `cargo nested` is followed by a search for the root's own
    /// nested roots, inside the root's delimiter. Where no command can be
    /// made, all that is left is closing the open delimiters.
    pub fn next(&mut self) -> (r: Result<Action, Error>)
        ensures
            final(self).source == old(self).source,
            final(self).subcommand == old(self).subcommand,
            final(self).args == old(self).args,
            final(self).package_name == old(self).package_name,
            old(self).pending@.len() == 0 ==> r == Ok::<Action, Error>(Action::Finish)
                && final(self).pending@ == old(self).pending@ && final(self).open == old(self).open,
            old(self).pending@.len() > 0 ==> match old(self).pending@.last() {
                Task::Print(m) => r == Ok::<Action, Error>(Action::Print(m))
                    && final(self).pending@ == old(self).pending@.drop_last()
                    && final(self).open == old(self).open,
                Task::Notice(m) => r == Ok::<Action, Error>(Action::Notice(m))
                    && final(self).pending@ == old(self).pending@.drop_last()
                    && final(self).open == old(self).open,
                Task::Expand { dir, top } => r == Ok::<Action, Error>(
                    Action::ListRoots { dir: final(self).listing_dir },
                ) && final(self).listing_dir == dir && final(self).listing_top == top
                    && final(self).pending@ == old(self).pending@.drop_last()
                    && final(self).open == old(self).open,
                Task::Run(root) => r == Ok::<Action, Error>(Action::Open(root))
                    && final(self).pending@ == old(self).pending@.drop_last() + replay_tasks(
                    old(self).source,
                    root,
                ) && final(self).open@ == old(self).open@.push(root),
                Task::Spawn(root) => final(self).open == old(self).open && match r {
                    Ok(a) => synthesizable(
                        old(self).source,
                        opt_view(old(self).package_name),
                        old(self).subcommand,
                    ) && a is Run && a->Run_dir == root && is_command_for(
                        a->Run_command,
                        old(self).source,
                        opt_view(old(self).package_name),
                        old(self).subcommand,
                        views(old(self).args@),
                    ) && final(self).pending@ == old(self).pending@.drop_last(),
                    Err(e) => !synthesizable(
                        old(self).source,
                        opt_view(old(self).package_name),
                        old(self).subcommand,
                    ) && (e is UnexpectedSourceSubcommandPairing || e is MissingPackageName)
                        && final(self).pending@ == close_tasks(old(self).open@),
                },
                Task::Close(root) => r == Ok::<Action, Error>(Action::Close(root))
                    && final(self).pending@ == old(self).pending@.drop_last()
                    && final(self).open@ == if old(self).open@.len() > 0 {
                    old(self).open@.drop_last()
                } else {
                    old(self).open@
                },
            },
            runs_nothing(old(self).pending@) ==> !(r is Ok && r->Ok_0 is Run) && runs_nothing(
                final(self).pending@,
            ),
    {
        let task = match self.pending.pop() {
            Some(t) => t,
            None => {
                return Ok(Action::Finish);
            },
        };
        match task {
            Task::Print(m) => Ok(Action::Print(m)),
            Task::Notice(m) => Ok(Action::Notice(m)),
            Task::Expand { dir, top } => {
                self.listing_top = top;
                self.listing_dir = dir;
                let d = match &self.listing_dir {
                    Some(d) => Some(d.clone()),
                    None => None,
                };
                Ok(Action::ListRoots { dir: d })
            },
            Task::Run(root) => {
                let ghost rest = self.pending@;
                self.open.push(root.clone());
                self.pending.push(Task::Close(root.clone()));
                if self.source == Source::CargoNested {
                    self.pending.push(Task::Expand { dir: Some(root.clone()), top: false });
                }
                self.pending.push(Task::Spawn(root.clone()));
                assert(self.pending@ =~= rest + replay_tasks(self.source, root));
                Ok(Action::Open(root))
            },
            Task::Spawn(root) => {
                match build_cargo_command(
                    self.source,
                    &self.package_name,
                    &self.subcommand,
                    &self.args,
                ) {
                    Ok(command) => Ok(Action::Run { command, dir: root }),
                    Err(e) => {
                        self.abandon();
                        Err(e)
                    },
                }
            },
            Task::Close(root) => {
                self.open.pop();
                Ok(Action::Close(root))
            },
        }
    }

    /// Reports the outcome of a command that `next` asked for: a command that
    /// failed ends the run, leaving only the closing of the open delimiters.
    pub fn command_finished(&mut self, command: CargoCommand, success: bool) -> (r: Result<
        (),
        Error,
    >)
        ensures
            final(self).source == old(self).source,
            final(self).subcommand == old(self).subcommand,
            final(self).args == old(self).args,
            final(self).package_name == old(self).package_name,
            final(self).open == old(self).open,
            success ==> r is Ok && final(self).pending == old(self).pending,
            !success ==> r == Err::<(), Error>(Error::ExternalCommandFailed(command))
                && final(self).pending@ == close_tasks(old(self).open@) && runs_nothing(
                final(self).pending@,
            ),
    {
        if success {
            Ok(())
        } else {
            self.abandon();
            Err(Error::ExternalCommandFailed(command))
        }
    }

    /// Reports the nested roots found for the last `ListRoots`: each is
    /// replayed on in order before the remaining work. Finding none at the
    /// first level gives a notice.
    pub fn roots_listed(&mut self, roots: Vec<String>)
        ensures
            final(self).source == old(self).source,
            final(self).subcommand == old(self).subcommand,
            final(self).args == old(self).args,
            final(self).package_name == old(self).package_name,
            roots.len() > 0 ==> final(self).pending@ == old(self).pending@ + run_tasks(roots@),
            roots.len() == 0 && old(self).listing_top ==> final(self).pending@.len()
                == old(self).pending@.len() + 1 && final(self).pending@.drop_last()
                == old(self).pending@ && final(self).pending@.last() is Notice
                && final(self).pending@.last()->Notice_0@ == no_roots_notice(
                opt_view(old(self).listing_dir),
            ),
            roots.len() == 0 && !old(self).listing_top ==> final(self).pending@
                == old(self).pending@,
    {
        if roots.len() == 0 {
            if self.listing_top {
                let m = no_roots_message(&self.listing_dir);
                self.pending.push(Task::Notice(m));
            }
        } else {
            push_runs(&mut self.pending, roots);
        }
    }
}

} // verus!
