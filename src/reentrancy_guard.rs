use vstd::prelude::*;

use crate::error::Error;
use crate::text::{joined, same};

verus! {

/// The part of a reentrancy guard's name that comes before the package name.
pub open spec fn guard_prefix() -> Seq<char> {
    "NESTED_WORKSPACE_REENTRANCY_GUARD_"@
}

/// The name of the environment variable that guards package `package_name`.
pub open spec fn guard_name(package_name: Seq<char>) -> Seq<char> {
    guard_prefix() + package_name
}

/// The value of the first variable named `key` in `vars`, if any.
pub open spec fn env_lookup(vars: Seq<(String, String)>, key: Seq<char>) -> Option<Seq<char>>
    decreases vars.len(),
{
    if vars.len() == 0 {
        None
    } else if vars[0].0@ == key {
        Some(vars[0].1@)
    } else {
        env_lookup(vars.skip(1), key)
    }
}

/// A guard is on when its variable is set to anything but `0`.
pub open spec fn guard_on(vars: Seq<(String, String)>, key: Seq<char>) -> bool {
    match env_lookup(vars, key) {
        Some(v) => v != "0"@,
        None => false,
    }
}

/// The name of the variable that holds the current package's name.
pub open spec fn package_name_var() -> Seq<char> {
    "CARGO_PKG_NAME"@
}

/// The name of the environment variable that guards package `package_name`.
pub fn reentrancy_guard_from_package_name(package_name: &str) -> (r: String)
    ensures
        r@ == guard_name(package_name@),
{
    joined("NESTED_WORKSPACE_REENTRANCY_GUARD_", package_name)
}

/// The value of the first variable named `key` in `vars`, if any.
pub fn lookup(vars: &Vec<(String, String)>, key: &str) -> (r: Option<String>)
    ensures
        match r {
            Some(v) => env_lookup(vars@, key@) == Some(v@),
            None => env_lookup(vars@, key@) is None,
        },
{
    let mut i: usize = 0;
    assert(vars@.skip(0) =~= vars@);
    while i < vars.len()
        invariant
            i <= vars.len(),
            env_lookup(vars@, key@) == env_lookup(vars@.skip(i as int), key@),
        decreases vars.len() - i,
    {
        assert(vars@.skip(i as int)[0] == vars@[i as int]);
        assert(vars@.skip(i as int).skip(1) =~= vars@.skip(i + 1));
        if same(&vars[i].0, key) {
            return Some(vars[i].1.clone());
        }
        i = i + 1;
    }
    None
}

/// Whether the guard named `key` is on in `vars`.
pub fn enabled(vars: &Vec<(String, String)>, key: &str) -> (r: bool)
    ensures
        r == guard_on(vars@, key@),
{
    match lookup(vars, key) {
        Some(v) => !same(&v, "0"),
        None => false,
    }
}

/// The name of the guard of the current package, whose name `vars` holds
/// under `CARGO_PKG_NAME`.
pub fn reentrancy_guard(vars: &Vec<(String, String)>) -> (r: Result<String, Error>)
    ensures
        match env_lookup(vars@, package_name_var()) {
            Some(p) => r is Ok && r->Ok_0@ == guard_name(p),
            None => r is Err && r->Err_0 is MissingEnvironmentVariable
                && r->Err_0->MissingEnvironmentVariable_0@ == package_name_var(),
        },
{
    match lookup(vars, "CARGO_PKG_NAME") {
        Some(package_name) => Ok(reentrancy_guard_from_package_name(package_name.as_str())),
        None => Err(Error::MissingEnvironmentVariable(String::from_str("CARGO_PKG_NAME"))),
    }
}

/// Fails with `CycleDetected` when the guard of the current package is on in
/// `vars`: propagation for that package is then already in flight.
pub fn check_reentrancy_guard(vars: &Vec<(String, String)>) -> (r: Result<(), Error>)
    ensures
        match env_lookup(vars@, package_name_var()) {
            Some(p) => if guard_on(vars@, guard_name(p)) {
                r is Err && r->Err_0 is CycleDetected
            } else {
                r is Ok
            },
            None => r is Err && r->Err_0 is MissingEnvironmentVariable,
        },
{
    let reentrancy_guard = match reentrancy_guard(vars) {
        Ok(g) => g,
        Err(e) => return Err(e),
    };
    if enabled(vars, reentrancy_guard.as_str()) {
        return Err(Error::CycleDetected);
    }
    Ok(())
}

/// Different packages have differently named guards, so the guard of one
/// package never trips that of another.
pub proof fn guard_names_are_distinct(a: Seq<char>, b: Seq<char>)
    requires
        a != b,
    ensures
        guard_name(a) != guard_name(b),
{
    if guard_name(a) == guard_name(b) {
        assert(a =~= guard_name(a).skip(guard_prefix().len() as int));
        assert(b =~= guard_name(b).skip(guard_prefix().len() as int));
    }
}

} // verus!
