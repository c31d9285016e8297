//! Resolution of a language-server binary for the `baml` tooling.
//!
//! The resolver decides, in strict priority order, where the `baml-cli`
//! binary that a host should launch comes from: an explicit configuration
//! path, a path cached from an earlier resolution in the same process, or a
//! fresh download of the latest stable release. The decision logic is a
//! verified state machine: the host performs each requested piece of I/O and
//! feeds the outcome back as an event.

use vstd::prelude::*;

pub mod command;
pub mod laws;
pub mod model;
pub mod platform;
pub mod release;
pub mod resolver;

verus! {

} // verus!
