//! Persistent pool of reusable device image buffers.
//!
//! All buffers are allocated when the pool is created; a fixed-resolution
//! pipeline then acquires and releases them every frame without allocating.

use vstd::prelude::*;

use crate::error::GpuError;

verus! {

/// A pool of pre-allocated image buffers, handed out last-in first-out.
///
/// All buffers made by [`GpuImagePool::new`] share the same dimensions, which
/// suits a fixed-resolution pipeline (e.g. all frames are 1920×1080 RGB).
pub struct GpuImagePool<B> {
    /// Available (not currently in use) buffers; the next one handed out is
    /// the last.
    available: Vec<B>,
}

impl<B> View for GpuImagePool<B> {
    type V = Seq<B>;

    /// The buffers currently available, in the order they were returned.
    closed spec fn view(&self) -> Seq<B> {
        self.available@
    }
}

impl<B> GpuImagePool<B> {
    /// Creates a pool holding `capacity` buffers of size `height` × `width`,
    /// each made by one call `make(height, width)`.
    ///
    /// All allocations happen here, at startup, not per frame. The first
    /// error returned by `make` is returned and the pool is not created.
    pub fn new<F>(capacity: usize, height: usize, width: usize, make: F) -> (r: Result<Self, GpuError>)
        where
            F: Fn(usize, usize) -> Result<B, GpuError>,
        requires
            call_requires(make, (height, width)),
        ensures
            capacity == 0 ==> r is Ok,
            r matches Ok(pool) ==> {
                &&& pool@.len() == capacity
                &&& forall|i: int|
                    0 <= i < capacity ==> call_ensures(make, (height, width), Ok::<B, GpuError>(#[trigger] pool@[i]))
            },
            r matches Err(e) ==> call_ensures(make, (height, width), Err::<B, GpuError>(e)),
    {
        let mut buffers: Vec<B> = Vec::with_capacity(capacity);
        let mut i: usize = 0;
        while i < capacity
            invariant
                i <= capacity,
                buffers@.len() == i,
                call_requires(make, (height, width)),
                forall|j: int|
                    0 <= j < i ==> call_ensures(make, (height, width), Ok::<B, GpuError>(#[trigger] buffers@[j])),
            decreases capacity - i,
        {
            match make(height, width) {
                Ok(buf) => buffers.push(buf),
                Err(e) => return Err(e),
            }
            i = i + 1;
        }
        Ok(GpuImagePool { available: buffers })
    }

    /// Takes a buffer from the pool: the most recently returned one.
    ///
    /// Returns `Err(GpuError::PoolExhausted)` if no buffer is available. The
    /// caller must [`release`](Self::release) the buffer when done or it is
    /// permanently removed from the pool.
    pub fn acquire(&mut self) -> (r: Result<B, GpuError>)
        ensures
            old(self)@.len() == 0 ==> {
                &&& r matches Err(e) && e is PoolExhausted
                &&& final(self)@ == old(self)@
            },
            old(self)@.len() > 0 ==> {
                &&& r == Ok::<B, GpuError>(old(self)@.last())
                &&& final(self)@ == old(self)@.drop_last()
            },
    {
        match self.available.pop() {
            Some(buf) => Ok(buf),
            None => Err(GpuError::PoolExhausted),
        }
    }

    /// Returns a buffer to the pool for reuse.
    pub fn release(&mut self, buf: B)
        ensures
            final(self)@ == old(self)@.push(buf),
    {
        self.available.push(buf);
    }

    /// Number of buffers currently available (not acquired).
    pub fn available_count(&self) -> (r: usize)
        ensures
            r == self@.len(),
    {
        self.available.len()
    }
}

/// Releasing a buffer and then acquiring hands back that same buffer and
/// leaves the pool exactly as it was before the release.
pub proof fn lemma_release_then_acquire<B>(pool: GpuImagePool<B>, buf: B)
    ensures
        pool@.push(buf).len() > 0,
        pool@.push(buf).last() == buf,
        pool@.push(buf).drop_last() == pool@,
{
    assert(pool@.push(buf).drop_last() =~= pool@);
}

/// Acquiring a buffer from a non-empty pool and releasing it again (as a
/// pipeline does once per frame) leaves the pool exactly as it was.
pub proof fn lemma_acquire_then_release<B>(pool: GpuImagePool<B>)
    requires
        pool@.len() > 0,
    ensures
        pool@.drop_last().push(pool@.last()) == pool@,
{
    assert(pool@.drop_last().push(pool@.last()) =~= pool@);
}

/// A pool holding `n` buffers hands out exactly `n` of them, each once, in
/// reverse order of their position, before it reports exhaustion: after `k`
/// successful acquisitions the pool holds its first `n - k` buffers.
pub proof fn lemma_acquire_sequence<B>(pool: GpuImagePool<B>, k: nat)
    requires
        k <= pool@.len(),
    ensures
        drop_last_n(pool@, k) == pool@.subrange(0, pool@.len() - k),
        k < pool@.len() ==> drop_last_n(pool@, k).last() == pool@[pool@.len() - k - 1],
    decreases k,
{
    if k > 0 {
        lemma_acquire_sequence(pool, (k - 1) as nat);
        assert(drop_last_n(pool@, (k - 1) as nat).drop_last() =~= pool@.subrange(0, pool@.len() - k));
    } else {
        assert(pool@.subrange(0, pool@.len() as int) =~= pool@);
    }
}

/// The pool contents after `k` successful acquisitions from `s`.
pub open spec fn drop_last_n<B>(s: Seq<B>, k: nat) -> Seq<B>
    decreases k,
{
    if k == 0 || s.len() == 0 {
        s
    } else {
        drop_last_n(s, (k - 1) as nat).drop_last()
    }
}

} // verus!
