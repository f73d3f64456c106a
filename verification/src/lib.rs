//! A temporary-file and temporary-directory manager.
//!
//! Given a staging root, [`dist::temp::Cfg`] allocates uniquely named
//! files and directories under it and hands back scoped handles
//! ([`dist::temp::Dir`], [`dist::temp::File`]); the entry behind a handle
//! is meant to be removed when the handle's scope ends.
//!
//! The library holds the decisions of that protocol — candidate-name
//! generation, the collision-retry step, the error taxonomy and the
//! cleanup rule — as verified functions over plain values, together with
//! a ghost model of the filesystem effects ([`dist::fs_model`]). The
//! surrounding program performs the filesystem calls themselves and
//! feeds their outcomes back in.

use vstd::prelude::*;

pub mod dist;
pub mod notifications;
pub mod utils;

verus! {

/// Whether informational events about creations are emitted.
#[derive(Clone, Copy, Debug, PartialEq, Eq, Structural)]
pub enum Verbosity {
    Verbose,
    NotVerbose,
}

} // verus!
