//! Two byte strings that differ in what a copy costs.
//!
//! A [`UniqueStr`] owns its bytes: a copy gets bytes of its own at once. A
//! [`CowStr`] shares its bytes with its copies and takes bytes of its own
//! only when it is about to be written to.

use std::ops::Deref;
use std::rc::Rc;
use vstd::prelude::*;
use vstd::string::*;

verus! {

/// `Box::<[u8]>::from`, given a slice: a new box that holds a copy of the
/// bytes.
#[verifier::external_body]
fn boxed_copy(bytes: &[u8]) -> (copy: Box<[u8]>)
    ensures
        copy@ == bytes@,
{
    Box::from(bytes)
}

/// A byte string that owns its bytes alone.
pub struct UniqueStr {
    data: Box<[u8]>,
}

impl View for UniqueStr {
    type V = Seq<u8>;

    closed spec fn view(&self) -> Seq<u8> {
        self.data@
    }
}

impl UniqueStr {
    /// A byte string that holds the bytes of `data`.
    pub fn new(data: &str) -> (created: Self)
        ensures
            created@ == data.spec_bytes(),
    {
        Self { data: boxed_copy(data.as_bytes()) }
    }

    /// The bytes, to read.
    pub fn as_slice(&self) -> (bytes: &[u8])
        ensures
            bytes@ == self@,
    {
        &*self.data
    }

    /// The bytes, to write to: what is written to them is written to the
    /// string.
    pub fn as_mut_slice(&mut self) -> (bytes: &mut [u8])
        ensures
            bytes@ == old(self)@,
            final(self)@ == final(bytes)@,
    {
        &mut *self.data
    }
}

impl Clone for UniqueStr {
    /// A copy with bytes of its own.
    fn clone(&self) -> (copy: Self)
        ensures
            copy@ == self@,
    {
        Self { data: boxed_copy(&*self.data) }
    }
}

impl Deref for UniqueStr {
    type Target = [u8];

    fn deref(&self) -> (bytes: &[u8])
        ensures
            bytes@ == self@,
    {
        &*self.data
    }
}

/// `Rc::<[u8]>::from`, given a slice: a new allocation that holds a copy of
/// the bytes.
#[verifier::external_body]
fn shared_copy(bytes: &[u8]) -> (copy: Rc<[u8]>)
    ensures
        copy@ == bytes@,
{
    Rc::from(bytes)
}

/// `Rc::clone`: one more pointer to the same allocation, so to the same
/// bytes.
#[verifier::external_body]
fn one_more_pointer(shared: &Rc<[u8]>) -> (pointer: Rc<[u8]>)
    ensures
        pointer@ == shared@,
{
    Rc::clone(shared)
}

/// `Rc::strong_count`: how many pointers to the allocation there are. The
/// bytes do not show it, so nothing is claimed of the number.
#[verifier::external_body]
fn pointer_count(shared: &Rc<[u8]>) -> usize {
    Rc::strong_count(shared)
}

/// `Rc::get_mut`: the bytes to write to, if no other pointer to the
/// allocation exists. Whether one exists the bytes do not show, so either
/// answer is possible; what is written through the reference is written to
/// the allocation, and without the reference the bytes stay as they are.
#[verifier::external_body]
fn sole_access(shared: &mut Rc<[u8]>) -> (bytes: Option<&mut [u8]>)
    ensures
        bytes.is_some() ==> bytes.unwrap()@ == old(shared)@ && final(shared)@ == final(bytes.unwrap())@,
        bytes.is_none() ==> final(shared)@ == old(shared)@,
{
    Rc::get_mut(shared)
}

/// A byte string that shares its bytes with its copies until it is written
/// to.
pub struct CowStr {
    data: Rc<[u8]>,
}

impl View for CowStr {
    type V = Seq<u8>;

    closed spec fn view(&self) -> Seq<u8> {
        self.data@
    }
}

impl CowStr {
    /// A byte string that holds the bytes of `data`.
    pub fn new(data: &str) -> (created: Self)
        ensures
            created@ == data.spec_bytes(),
    {
        Self { data: shared_copy(data.as_bytes()) }
    }

    /// The bytes, to read.
    pub fn as_slice(&self) -> (bytes: &[u8])
        ensures
            bytes@ == self@,
    {
        &*self.data
    }

    /// Gives the string bytes of its own if `pointers`, the number of
    /// strings that share its bytes, is not one. Says whether it did; the
    /// bytes read the same either way.
    pub fn detach_if_shared(&mut self, pointers: usize) -> (detached: bool)
        ensures
            detached == (pointers != 1),
            final(self)@ == old(self)@,
    {
        if pointers != 1 {
            self.data = shared_copy(&*self.data);
            true
        } else {
            false
        }
    }

    /// The bytes, to write to. A string that shares its bytes takes bytes
    /// of its own first, so that no copy sees what is written.
    ///
    /// What is written to the bytes is written to the string. Where sole
    /// access to the bytes cannot be had, `None` is returned and the string
    /// reads as before.
    pub fn as_mut_slice(&mut self) -> (bytes: Option<&mut [u8]>)
        ensures
            bytes.is_some() ==> bytes.unwrap()@ == old(self)@ && final(self)@ == final(bytes.unwrap())@,
            bytes.is_none() ==> final(self)@ == old(self)@,
    {
        let pointers = pointer_count(&self.data);
        self.detach_if_shared(pointers);
        sole_access(&mut self.data)
    }
}

impl Clone for CowStr {
    /// A copy that shares the bytes of the string.
    fn clone(&self) -> (copy: Self)
        ensures
            copy@ == self@,
    {
        Self { data: one_more_pointer(&self.data) }
    }
}

impl Deref for CowStr {
    type Target = [u8];

    fn deref(&self) -> (bytes: &[u8])
        ensures
            bytes@ == self@,
    {
        &*self.data
    }
}

} // verus!
