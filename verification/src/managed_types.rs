//! Per-call scratch space for managed numeric/buffer handles.
//!
//! Each call frame gets a fresh, empty scratch space when it is pushed on
//! the context stack; handles are indices into it and never outlive the
//! frame.

use vstd::prelude::*;

use crate::bigint::BigIntValue;
use crate::bytes::{copy_bytes, list_view};

verus! {

/// The managed buffers and big integers of one call frame.
pub struct TxManagedTypes {
    pub buffers: Vec<Vec<u8>>,
    pub big_ints: Vec<BigIntValue>,
}

/// The values of the managed big integers.
pub open spec fn big_ints_view(s: Seq<BigIntValue>) -> Seq<int> {
    Seq::new(s.len(), |i: int| s[i]@)
}

impl TxManagedTypes {
    /// Empty scratch space.
    pub fn new() -> (r: TxManagedTypes)
        ensures
            r.buffers@.len() == 0,
            r.big_ints@.len() == 0,
    {
        TxManagedTypes { buffers: Vec::new(), big_ints: Vec::new() }
    }

    /// Allocate a new managed buffer; the handle is its index.
    pub fn insert_buffer(&mut self, data: Vec<u8>) -> (handle: usize)
        ensures
            handle == old(self).buffers@.len(),
            list_view(final(self).buffers@) =~= list_view(old(self).buffers@).push(data@),
            final(self).big_ints == old(self).big_ints,
    {
        let handle = self.buffers.len();
        self.buffers.push(data);
        handle
    }

    /// Read a managed buffer by handle.
    pub fn get_buffer(&self, handle: usize) -> (r: Vec<u8>)
        requires
            handle < self.buffers@.len(),
        ensures
            r@ =~= list_view(self.buffers@)[handle as int],
    {
        copy_bytes(&self.buffers[handle])
    }

    pub fn buffer_count(&self) -> (r: usize)
        ensures
            r == self.buffers@.len(),
    {
        self.buffers.len()
    }

    /// Allocate a new managed big integer; the handle is its index.
    pub fn insert_big_int(&mut self, value: BigIntValue) -> (handle: usize)
        ensures
            handle == old(self).big_ints@.len(),
            big_ints_view(final(self).big_ints@) =~= big_ints_view(old(self).big_ints@).push(
                value@,
            ),
            final(self).buffers == old(self).buffers,
    {
        let handle = self.big_ints.len();
        self.big_ints.push(value);
        handle
    }

    /// Read a managed big integer by handle.
    pub fn get_big_int(&self, handle: usize) -> (r: BigIntValue)
        requires
            handle < self.big_ints@.len(),
        ensures
            r@ == big_ints_view(self.big_ints@)[handle as int],
    {
        self.big_ints[handle].dup()
    }

    pub fn big_int_count(&self) -> (r: usize)
        ensures
            r == self.big_ints@.len(),
    {
        self.big_ints.len()
    }
}

} // verus!
