//! The list of buckets behind a [`crate::FixedWindow`], kept in a
//! `smallvec::SmallVec` so that a window of up to sixteen buckets needs no
//! allocation. Nothing in this file is proved: each function states what the
//! `SmallVec` method it calls is documented to do.

use smallvec::SmallVec;
use vstd::prelude::*;

verus! {

/// One bucket of a window: the time at which it starts, the successes and
/// the failures counted in it.
pub type Bucket = (u64, u64, u64);

/// The largest number of buckets that a list is asked to hold: one sixty-
/// fourth of the largest `usize`. A `SmallVec` of fewer buckets grows, when
/// one more is pushed, to a power of two of at most one item more than that;
/// at 24 bytes each they take less than half of the address space, which is
/// what can be allocated, so that `push` cannot fail with a capacity
/// overflow.
pub const MAX_BUCKETS: usize = usize::MAX / 64;

/// A `SmallVec` of buckets with inline room for sixteen.
#[verifier::external_body]
pub struct BucketList {
    items: SmallVec<[Bucket; 16]>,
}

/// The buckets that a list holds, first to last.
pub uninterp spec fn bucket_list_items(list: BucketList) -> Seq<Bucket>;

impl BucketList {
    /// `SmallVec::new`: a list that holds nothing.
    #[verifier::external_body]
    pub(crate) fn new() -> (list: BucketList)
        ensures
            bucket_list_items(list) == Seq::<Bucket>::empty(),
    {
        BucketList { items: SmallVec::new() }
    }

    /// `SmallVec::as_slice`: the buckets in order, as a slice.
    #[verifier::external_body]
    pub(crate) fn as_slice(&self) -> (slice: &[Bucket])
        ensures
            slice@ == bucket_list_items(*self),
    {
        self.items.as_slice()
    }

    /// `SmallVec::push`: appends one bucket behind the others. The bound on
    /// the length keeps the growth of the vector within what can be
    /// allocated.
    #[verifier::external_body]
    pub(crate) fn push(&mut self, bucket: Bucket)
        requires
            bucket_list_items(*old(self)).len() < MAX_BUCKETS,
        ensures
            bucket_list_items(*final(self)) == bucket_list_items(*old(self)).push(bucket),
    {
        self.items.push(bucket)
    }

    /// `SmallVec::remove`: takes out the bucket at `index`, moves those behind
    /// it one place forward, and returns it. The index must be in range.
    #[verifier::external_body]
    pub(crate) fn remove(&mut self, index: usize) -> (bucket: Bucket)
        requires
            index < bucket_list_items(*old(self)).len(),
        ensures
            bucket == bucket_list_items(*old(self))[index as int],
            bucket_list_items(*final(self)) == bucket_list_items(*old(self)).remove(index as int),
    {
        self.items.remove(index)
    }

    /// `SmallVec`'s `IndexMut`: overwrites the bucket at `index`, which must
    /// be in range, and leaves the others as they are.
    #[verifier::external_body]
    pub(crate) fn set(&mut self, index: usize, bucket: Bucket)
        requires
            index < bucket_list_items(*old(self)).len(),
        ensures
            bucket_list_items(*final(self)) == bucket_list_items(*old(self)).update(
                index as int,
                bucket,
            ),
    {
        self.items[index] = bucket;
    }
}

} // verus!
