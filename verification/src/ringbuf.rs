//! A bounded ring buffer keeping the newest items.
//!
//! Pushing onto a full buffer overwrites the oldest item. The logical
//! contents are the kept items, oldest first.

use vstd::prelude::*;

verus! {

use vstd::pervasive::cloned;

/// A bounded buffer of the `capacity` newest items. `buffer` holds them with
/// the oldest at `start`, wrapping around; it only grows until it reaches the
/// capacity, so `start` stays zero until the first overwrite.
pub struct RingBuffer<T> {
    pub buffer: Vec<T>,
    pub capacity: usize,
    pub start: usize,
    pub size: usize,
}

impl<T> RingBuffer<T> {
    /// The buffer's structural invariant.
    pub open spec fn wf(&self) -> bool {
        &&& 0 < self.capacity
        &&& self.size <= self.capacity
        &&& self.buffer@.len() == self.size
        &&& self.size < self.capacity ==> self.start == 0
        &&& self.size == self.capacity ==> self.start < self.capacity
    }

    /// The kept items, oldest first.
    pub open spec fn contents(&self) -> Seq<T> {
        self.buffer@.skip(self.start as int) + self.buffer@.take(self.start as int)
    }
}

impl<T: Clone> RingBuffer<T> {
    /// An empty buffer that will keep the `capacity` newest items.
    pub fn new(capacity: usize) -> (r: RingBuffer<T>)
        requires
            capacity > 0,
        ensures
            r.wf(),
            r.capacity == capacity,
            r.contents() == Seq::<T>::empty(),
    {
        let r = RingBuffer { buffer: Vec::new(), capacity, start: 0, size: 0 };
        proof {
            assert(r.contents() =~= Seq::<T>::empty());
        }
        r
    }

    /// Appends `item`; a full buffer drops its oldest item to make room.
    pub fn push(&mut self, item: T)
        requires
            old(self).wf(),
        ensures
            final(self).wf(),
            final(self).capacity == old(self).capacity,
            old(self).size < old(self).capacity ==> final(self).contents() == old(
                self,
            ).contents().push(item),
            old(self).size == old(self).capacity ==> final(self).contents() == old(
                self,
            ).contents().drop_first().push(item),
    {
        if self.size < self.capacity {
            self.buffer.push(item);
            self.size = self.size + 1;
            proof {
                assert(self.contents() =~= old(self).contents().push(item));
            }
        } else {
            // The slot past the newest item wraps around to `start` when the
            // buffer is full: overwrite the oldest item and move `start` on.
            let end = self.start;
            self.buffer[end] = item;
            self.start = if self.start + 1 == self.capacity {
                0
            } else {
                self.start + 1
            };
            proof {
                assert(self.contents() =~= old(self).contents().drop_first().push(item));
            }
        }
    }

    /// The kept items, oldest first, as clones.
    pub fn to_vec(&self) -> (r: Vec<T>)
        requires
            self.wf(),
        ensures
            r@.len() == self.contents().len(),
            forall|k: int| 0 <= k < r@.len() ==> cloned(self.contents()[k], #[trigger] r@[k]),
    {
        let mut result: Vec<T> = Vec::new();
        let ghost wrapped = self.buffer@.len() - self.start;
        let mut i: usize = self.start;
        while i < self.buffer.len()
            invariant
                self.wf(),
                wrapped == self.buffer@.len() - self.start,
                self.start <= i <= self.buffer@.len(),
                result@.len() == i - self.start,
                forall|k: int|
                    0 <= k < result@.len() ==> cloned(self.contents()[k], #[trigger] result@[k]),
            decreases self.buffer@.len() - i,
        {
            let item = self.buffer[i].clone();
            proof {
                assert(self.contents()[i - self.start] == self.buffer@[i as int]);
            }
            result.push(item);
            i += 1;
        }
        let mut j: usize = 0;
        while j < self.start
            invariant
                self.wf(),
                wrapped == self.buffer@.len() - self.start,
                j <= self.start,
                result@.len() == wrapped + j,
                forall|k: int|
                    0 <= k < result@.len() ==> cloned(self.contents()[k], #[trigger] result@[k]),
            decreases self.start - j,
        {
            let item = self.buffer[j].clone();
            proof {
                assert(self.contents()[wrapped + j] == self.buffer@[j as int]);
            }
            result.push(item);
            j += 1;
        }
        result
    }
}

} // verus!
