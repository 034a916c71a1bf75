//! The operating systems that the shell tells apart.

use vstd::prelude::*;

verus! {

/// Operating system that the shell runs on.
#[derive(Clone, Copy, Debug, PartialEq, Eq, Structural)]
pub enum Platform {
    MacOs,
    Windows,
    /// Any other desktop.
    Other,
}

} // verus!
