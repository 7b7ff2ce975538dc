use vstd::prelude::*;

verus! {

/// An entity, known by the 64 bits of its identifier.
///
/// Two entities are the same when their bits are equal, and they are ordered
/// as their bits are.
pub type Entity = u64;

} // verus!
