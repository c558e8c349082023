use vstd::prelude::*;
use core::marker::PhantomData;
use crate::memory::types::{MemoryRange, PhysAddress};

verus! {

/// The kinds of object that a capability can refer to.
pub trait Capability {}

/// A capability to a range of physical memory.
#[derive(Debug, Clone, Copy)]
pub struct Frame {
    mem: MemoryRange<PhysAddress>,
}

impl Capability for Frame {}

/// A capability to a local message-passing endpoint.
#[derive(Debug, Clone, Copy)]
pub struct LMPEndpoint {}

impl Capability for LMPEndpoint {}

/// The empty capability.
#[derive(Debug, Clone, Copy)]
pub struct NullCap {}

impl Capability for NullCap {}

/// A second-level capability node.
#[derive(Debug, Clone, Copy)]
pub struct L2Cap {}

impl Capability for L2Cap {}

/// A first-level capability node: 32 references to second-level nodes, and how many of
/// them are in use.
#[derive(Debug, Clone, Copy)]
pub struct L1Cap {
    nodes: [CapRef<L2Cap>; 32],
    active: u32,
}

impl Capability for L1Cap {}

/// The type of the object that a capability refers to, carried in the type alone.
#[derive(Debug, Copy)]
pub struct CapType<T: Capability> {
    marker: PhantomData<T>,
}

impl<T: Capability> Clone for CapType<T> {
    fn clone(&self) -> (r: Self)
        ensures
            r == *self,
    {
        CapType { marker: PhantomData }
    }
}

/// A reference to a capability of kind `T`.
#[derive(Debug, Clone, Copy)]
pub struct CapRef<T: Capability> {
    pub typ: CapType<T>,
}

} // verus!
