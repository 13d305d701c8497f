//! Profile-driven pipeline that turns a declarative build profile into a
//! bootable operating-system image.
//!
//! The library holds the logic: profile validation, the support matrix that
//! resolves profile attributes into concrete build-environment invocations,
//! the ordered stage plan, and the fail-fast runner that walks it. Running
//! containers and touching the filesystem is left to the caller.
use vstd::prelude::*;

pub mod text;
pub mod profile;
pub mod resolver;
pub mod scripts;
pub mod pipeline;
pub mod runner;
pub mod lookup;
pub mod answers;
pub mod launch;
pub mod laws;

verus! {

} // verus!
