//! Keeps nested workspaces in step with their parent: works out which cargo
//! invocation is running, which nested roots the packages declare, and which
//! command to replay on each root.

pub mod arithmetic;
pub mod text;
pub mod command;
pub mod error;
pub mod reentrancy_guard;
pub mod process;
pub mod roots;
pub mod engine;
pub mod util;
pub mod file_name;

pub use command::{
    build_cargo_command, parse_cargo_command, parse_cargo_subcommand, CargoCommand,
    CargoSubcommand, Source,
};
pub use engine::{build, Action, Builder, Propagation, Task};
pub use error::Error;
pub use process::parent_cargo_command;
pub use reentrancy_guard::{check_reentrancy_guard, reentrancy_guard, reentrancy_guard_from_package_name};
pub use roots::{
    all_nested_workspace_roots, current_package_nested_workspace_roots, NestedMetadata,
    PackageRecord,
};
pub use util::Delimiter;
