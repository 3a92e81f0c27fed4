//! Closes the color traits to implementations outside this crate.
use vstd::prelude::*;

verus! {

/// Implemented by every color representation of this crate, and by no other type.
pub trait Seal: Copy {

}

} // verus!
