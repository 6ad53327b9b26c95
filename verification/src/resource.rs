//! The three tradable commodities of the colony economy.

use vstd::prelude::*;

verus! {

#[derive(Debug, Clone, Copy, PartialEq, Eq, Hash, Structural)]
pub enum Resource {
    Minerals,
    Gas,
    Energy,
}

} // verus!
