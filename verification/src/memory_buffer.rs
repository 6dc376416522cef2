//! Buffers that hand out and take back the storage of solutions.
//!
//! A buffer is modelled by the sequence of values that were handed back to it
//! and not handed out again, oldest first. Values leave in the reverse of the
//! order in which they came back.

use vstd::prelude::*;
use crate::ErrorKind;

verus! {

/// The value that the next allocation reuses, if the pool holds one.
pub open spec fn next_reused<S>(pool: Seq<S>) -> Option<S> {
    if pool.len() > 0 {
        Some(pool.last())
    } else {
        None
    }
}

/// The pool after one allocation.
pub open spec fn after_take<S>(pool: Seq<S>) -> Seq<S> {
    if pool.len() > 0 {
        pool.drop_last()
    } else {
        pool
    }
}

/// The pool after `value` came back to a buffer that keeps what it gets.
pub open spec fn after_return<S>(pool: Seq<S>, value: S) -> Seq<S> {
    pool.push(value)
}

/// Whether `values` is `len` clones of one default value of `T`.
pub open spec fn default_filled<T: Default + Clone>(values: Seq<T>, len: nat) -> bool {
    &&& values.len() == len
    &&& exists|d: T|
        call_ensures(T::default, (), d) && forall|i: int|
            0 <= i < len ==> cloned(d, #[trigger] values[i])
}

/// Whether `copy` holds a clone of each element of `source`, in order.
pub open spec fn cloned_elementwise<T: Clone>(source: Seq<T>, copy: Seq<T>) -> bool {
    &&& copy.len() == source.len()
    &&& forall|i: int| 0 <= i < source.len() ==> cloned(#[trigger] source[i], copy[i])
}

/// A source of values of type `S` that may reuse what is handed back to it.
pub trait MemoryTypedBuffer<S> {
    /// The values held for reuse, oldest first.
    open spec fn pooled(&self) -> Seq<S> {
        Seq::empty()
    }

    /// The invariant of the buffer.
    open spec fn well_formed(&self) -> bool {
        true
    }

    /// Whether `value` is what `allocate` builds when nothing can be reused.
    open spec fn fresh(&self, value: S) -> bool {
        true
    }

    /// Whether the buffer takes `value` back.
    open spec fn accepts(&self, value: S) -> bool {
        true
    }

    /// Whether the buffer keeps what it takes back.
    open spec fn keeps_returned(&self) -> bool {
        false
    }

    /// Whether `copy` is what `clone` may give for `source`.
    open spec fn copies(&self, source: S, copy: S) -> bool {
        true
    }

    /// Hands out the value that came back last, or a fresh one if none is held.
    fn allocate(&mut self) -> (value: S)
        requires
            old(self).well_formed(),
        ensures
            final(self).well_formed(),
            final(self).pooled() == after_take(old(self).pooled()),
            match next_reused(old(self).pooled()) {
                Some(reused) => value == reused,
                None => old(self).fresh(value),
            },
            forall|v: S| final(self).fresh(v) == old(self).fresh(v),
            forall|v: S| final(self).accepts(v) == old(self).accepts(v),
    ;

    /// Takes `free` back, or refuses it if this buffer cannot have given it out.
    fn deallocate(&mut self, free: S) -> (outcome: Result<(), ErrorKind>)
        requires
            old(self).well_formed(),
        ensures
            final(self).well_formed(),
            outcome is Ok <==> old(self).accepts(free),
            outcome is Err ==> outcome == Err::<(), ErrorKind>(ErrorKind::PoolMisuse),
            final(self).pooled() == if outcome is Ok && old(self).keeps_returned() {
                after_return(old(self).pooled(), free)
            } else {
                old(self).pooled()
            },
            forall|v: S| final(self).fresh(v) == old(self).fresh(v),
            forall|v: S| final(self).accepts(v) == old(self).accepts(v),
    ;

    /// Allocates a value and makes it a copy of `source`.
    fn clone(&mut self, source: &S) -> (copy: S)
        requires
            old(self).well_formed(),
        ensures
            final(self).well_formed(),
            final(self).pooled() == after_take(old(self).pooled()),
            old(self).copies(*source, copy),
            forall|v: S| final(self).fresh(v) == old(self).fresh(v),
            forall|v: S| final(self).accepts(v) == old(self).accepts(v),
    ;
}

/// An allocator that pools nothing: every allocation is a new default value.
pub struct SimpleNonbufferedAllocator {}

impl<T: Default + Clone> MemoryTypedBuffer<T> for SimpleNonbufferedAllocator {
    open spec fn fresh(&self, value: T) -> bool {
        call_ensures(T::default, (), value)
    }

    open spec fn copies(&self, source: T, copy: T) -> bool {
        cloned(source, copy)
    }

    fn allocate(&mut self) -> (value: T) {
        T::default()
    }

    fn deallocate(&mut self, _free: T) -> (outcome: Result<(), ErrorKind>) {
        Ok(())
    }

    fn clone(&mut self, source: &T) -> (copy: T) {
        source.clone()
    }
}

/// A pool of vectors that all have one length.
pub struct FixedSizeVectorsBuffer<T: Default + Clone> {
    buffer: Vec<Vec<T>>,
    fixed_vector_size: usize,
}

impl<T: Default + Clone> FixedSizeVectorsBuffer<T> {
    /// The length of every vector that this pool hands out or takes back.
    pub closed spec fn vector_size(&self) -> nat {
        self.fixed_vector_size as nat
    }

    /// An empty pool for vectors of length `fixed_vectors_size`, with room
    /// for `init_buffer_size` of them.
    pub fn new(init_buffer_size: usize, fixed_vectors_size: usize) -> (pool: Self)
        ensures
            pool.well_formed(),
            pool.pooled() == Seq::<Vec<T>>::empty(),
            pool.vector_size() == fixed_vectors_size,
    {
        FixedSizeVectorsBuffer {
            buffer: Vec::with_capacity(init_buffer_size),
            fixed_vector_size: fixed_vectors_size,
        }
    }
}

impl<T: Default + Clone> MemoryTypedBuffer<Vec<T>> for FixedSizeVectorsBuffer<T> {
    closed spec fn pooled(&self) -> Seq<Vec<T>> {
        self.buffer@
    }

    open spec fn well_formed(&self) -> bool {
        forall|i: int|
            0 <= i < self.pooled().len() ==> (#[trigger] self.pooled()[i])@.len()
                == self.vector_size()
    }

    open spec fn fresh(&self, value: Vec<T>) -> bool {
        default_filled(value@, self.vector_size())
    }

    open spec fn accepts(&self, value: Vec<T>) -> bool {
        value@.len() == self.vector_size()
    }

    open spec fn keeps_returned(&self) -> bool {
        true
    }

    open spec fn copies(&self, source: Vec<T>, copy: Vec<T>) -> bool {
        cloned_elementwise(source@, copy@)
    }

    fn allocate(&mut self) -> (value: Vec<T>)
        ensures
            final(self).vector_size() == old(self).vector_size(),
            value@.len() == old(self).vector_size(),
    {
        match self.buffer.pop() {
            Some(reused) => reused,
            None => vec![T::default(); self.fixed_vector_size],
        }
    }

    fn deallocate(&mut self, free: Vec<T>) -> (outcome: Result<(), ErrorKind>)
        ensures
            final(self).vector_size() == old(self).vector_size(),
    {
        if free.len() != self.fixed_vector_size {
            return Err(ErrorKind::PoolMisuse);
        }
        self.buffer.push(free);
        proof {
            assert forall|i: int| 0 <= i < self.pooled().len() implies (#[trigger] self.pooled()[i])@.len()
                == self.vector_size() by {
                if i < old(self).pooled().len() {
                    assert(self.pooled()[i] == old(self).pooled()[i]);
                } else {
                    assert(self.pooled()[i] == free);
                }
            }
        }
        Ok(())
    }

    fn clone(&mut self, source: &Vec<T>) -> (copy: Vec<T>)
        ensures
            final(self).vector_size() == old(self).vector_size(),
    {
        let mut copy = self.allocate();
        copy.clear();
        let mut i: usize = 0;
        while i < source.len()
            invariant
                i <= source@.len(),
                copy@.len() == i,
                forall|j: int| 0 <= j < i ==> cloned(#[trigger] source@[j], copy@[j]),
            decreases source@.len() - i,
        {
            copy.push(source[i].clone());
            i += 1;
        }
        copy
    }
}

/// A value handed back to a pool that keeps it is the next one handed out,
/// and handing it out leaves the pool as it was before.
pub proof fn lemma_returned_value_is_reused<S>(pool: Seq<S>, value: S)
    ensures
        next_reused(after_return(pool, value)) == Some(value),
        after_take(after_return(pool, value)) == pool,
{
}

/// Values leave a pool in the reverse of the order in which they came back.
pub proof fn lemma_reuse_is_last_in_first_out<S>(pool: Seq<S>, first: S, second: S)
    ensures
        next_reused(after_return(after_return(pool, first), second)) == Some(second),
        next_reused(after_take(after_return(after_return(pool, first), second))) == Some(first),
{
    lemma_returned_value_is_reused(after_return(pool, first), second);
    lemma_returned_value_is_reused(pool, first);
}

} // verus!
