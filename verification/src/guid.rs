//! Instance identifiers.
use vstd::prelude::*;

verus! {

/// A globally unique identifier, as the number that its 128 bits make.
#[derive(Copy, Clone, Debug, PartialEq, Eq, Hash, Structural)]
pub struct Guid(pub u128);

} // verus!
