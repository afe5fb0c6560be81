use vstd::prelude::*;

verus! {

/// A pointer kept as its address, so that it can live in a global and be
/// handed between threads. Address 0 stands for the null pointer.
#[derive(Copy, Clone, Debug)]
pub struct GlobalPointer {
    pointer: usize,
}

impl GlobalPointer {
    /// The address that this pointer holds.
    pub closed spec fn addr(self) -> usize {
        self.pointer
    }

    /// A pointer that holds the null address.
    pub fn new() -> (res: GlobalPointer)
        ensures
            res.addr() == 0,
    {
        GlobalPointer { pointer: 0 }
    }

    /// Stores `ptr` and returns a copy of the updated pointer.
    pub fn set(&mut self, ptr: usize) -> (res: GlobalPointer)
        ensures
            final(self).addr() == ptr,
            res == *final(self),
    {
        self.pointer = ptr;
        *self
    }

    /// The address last stored.
    pub fn as_ptr(&self) -> (res: usize)
        ensures
            res == self.addr(),
    {
        self.pointer
    }
}

} // verus!
