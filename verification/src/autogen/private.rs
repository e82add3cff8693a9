use vstd::prelude::*;

verus! {

/// The types outside code may not add to the message traits.
pub trait Sealed {

}

} // verus!
