//! A trivial array descriptor: a borrowed view of a contiguous sequence,
//! exposed to the caller as a (first element, element count) pair. No
//! ownership transfers; the descriptor is valid only while the source
//! collection is alive, which the borrow makes the compiler enforce.

use vstd::prelude::*;

verus! {

/// A caller-readable descriptor of a contiguous sequence: its elements and
/// their count. Well-formed when `size` matches the element count.
#[allow(non_camel_case_types)]
pub struct array_t<'a, T> {
    pub items: &'a [T],
    pub size: usize,
}

impl<'a, T> array_t<'a, T> {
    /// The descriptor's count field agrees with the sequence it describes.
    pub open spec fn well_formed(&self) -> bool {
        self.size == self.items@.len()
    }

    /// Builds a well-formed descriptor of a vector's elements.
    pub fn from(vec: &'a Vec<T>) -> (r: Self)
        ensures
            r.well_formed(),
            r.items@ == vec@,
            r.size == vec@.len(),
    {
        array_t { items: vec.as_slice(), size: vec.len() }
    }
}

} // verus!
