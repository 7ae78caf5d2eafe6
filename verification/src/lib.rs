//! Backend provisioning and supervision logic for a desktop shell: decides
//! install-vs-skip, plans worker launches, composes the worker environment,
//! relays tagged log lines, and interprets health probes. All filesystem,
//! process and network effects live outside this crate; the functions here
//! take the observed facts as plain values and return verified decisions.

pub mod diagnostics;
pub mod errors;
pub mod health;
pub mod install;
pub mod launch;
pub mod logs;
pub mod numbers;
pub mod paths;
pub mod setup;

use vstd::prelude::*;

verus! {

/// Builds the greeting shown by the shell's demo command.
pub fn greet(name: &str) -> (r: String)
    ensures
        r@ == "Hello, "@ + name@ + "! You've been greeted from Rust!"@,
{
    let mut s = String::from_str("Hello, ");
    s.append(name);
    s.append("! You've been greeted from Rust!");
    s
}

} // verus!
