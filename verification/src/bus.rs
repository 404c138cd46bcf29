//! Bus selection for routing.

use vstd::prelude::*;

verus! {

/// Target bus for routing.
#[derive(Debug, Clone, Copy, PartialEq, Eq, Structural)]
pub enum Bus {
    Host,
    Sandbox,
}

} // verus!
