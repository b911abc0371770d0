use vstd::prelude::*;

use crate::command::{CargoCommand, CargoSubcommand, Source};

verus! {

/// What can go wrong while working out and replaying a cargo invocation.
#[derive(Clone, Debug)]
pub enum Error {
    /// The first token does not name cargo or a cargo plugin.
    MalformedInvocation,
    /// Nothing follows the program name.
    MissingSubcommand,
    /// The platform could not tell the id of this process.
    CurrentProcessUnknown,
    /// A `cargo nw` command line does not have `nw` as its subcommand.
    NotNestedCommand,
    /// The process with this id could not be looked up.
    ProcessLookupFailed(u32),
    /// The walk up the process tree met no cargo process.
    NoBuildToolAncestorFound,
    /// A variable of the environment that is needed is not set.
    MissingEnvironmentVariable(String),
    /// No package has its manifest at this path.
    PackageNotFound(String),
    /// The package with its manifest at this path declares no nested roots.
    NoNestedWorkspaceMetadata(String),
    /// The directory of this manifest path could not be determined.
    NoManifestDir(String),
    /// The nested workspace metadata of a package could not be read; the
    /// message says why.
    MalformedMetadata(String),
    /// The trigger and the detected subcommand form no known pair.
    UnexpectedSourceSubcommandPairing(Source, CargoSubcommand),
    /// A command for a build script was asked for without a package name.
    MissingPackageName,
    /// Propagation for the current package is already in flight.
    CycleDetected,
    /// A propagated command exited unsuccessfully.
    ExternalCommandFailed(CargoCommand),
}

} // verus!
