//! Handing a large object down a deep chain of calls, by value or by
//! reference.

use vstd::prelude::*;

verus! {

/// Size of a large object, in bytes.
pub const OBJECT_SIZE: usize = 1024 * 4;

/// Depth below which [`recursive_call`] calls itself again.
pub const MAX_DEPTH: usize = 1024;

/// Something that can be touched.
pub trait Access {
    /// Touches the object.
    fn access(&mut self);
}

/// A large object, held by value.
pub struct LargeObject(pub [u8; OBJECT_SIZE]);

impl Access for LargeObject {
    /// Marks the first byte of the object.
    fn access(&mut self)
        ensures
            final(self).0@ == old(self).0@.update(0, 1u8),
    {
        self.0[0] = 1;
    }
}

/// A large object, held by reference.
pub struct LargeObjectRef<'a>(pub &'a mut [u8; OBJECT_SIZE]);

impl Access for LargeObjectRef<'_> {
    /// Marks the first byte of the object that is referred to.
    fn access(&mut self)
        ensures
            final(self).0@ == old(self).0@.update(0, 1u8),
    {
        self.0[0] = 1;
    }
}

/// How many calls deep `recursive_call` goes when entered at depth `i`.
pub open spec fn calls_below(i: usize) -> nat {
    if i > MAX_DEPTH {
        0
    } else {
        (MAX_DEPTH + 1 - i) as nat
    }
}

/// Hands `obj` down from depth `i` to the depth just past [`MAX_DEPTH`] and
/// back up again, untouched.
pub fn recursive_call<T: Access>(obj: T, i: usize) -> (returned: T)
    ensures
        returned == obj,
    decreases calls_below(i),
{
    if i > MAX_DEPTH {
        return obj;
    }
    recursive_call(obj, i + 1)
}

} // verus!
