//! Shared pieces of the mappings between library enums and libobs's C
//! enumerants.

use vstd::prelude::*;

verus! {

/// A libobs enumerant that the library's enum does not name.
#[derive(Debug, Clone, Copy, PartialEq, Eq, Structural)]
pub struct UnknownNativeValue {
    /// The value libobs reported.
    pub raw: u32,
}

} // verus!
