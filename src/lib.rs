//! Secure self-update and helper-tool provisioning for a launcher binary.
//!
//! Every decision is made here, on plain values: which release asset to take,
//! whether a detached signature holds, which archive member to extract, and the
//! order of the filesystem steps that install an artifact. The program around
//! the library performs the network and filesystem work that the flows ask for.
use vstd::prelude::*;

pub mod archive;
pub mod config;
pub mod environment;
pub mod flow;
pub mod provision;
pub mod release;
pub mod session;
pub mod setup;
pub mod signature;
pub mod text;
pub mod update;
pub mod version;

verus! {

} // verus!
