use vstd::prelude::*;

use crate::errors::OomError;

verus! {

/// An array backed append only vector.
///
/// The vector is bound to a caller supplied buffer of fixed length; that
/// length is the capacity and never changes. Insertion follows a
/// claim-and-confirm protocol with two monotonically growing cursors:
///
/// - the write cursor (`next_idx`) counts the slots ever claimed by an
///   insertion; it may grow past the capacity and is never decremented, so
///   a single exhaustion permanently retires all later claims;
/// - the commit cursor (`confirmed_len`) counts the slots, starting at
///   index 0, that hold fully initialized values and are safe to read.
///
/// Readers consult only the commit cursor, so they observe a contiguous,
/// gap-free prefix of committed elements and never a partially written slot.
/// A slot holds `Some` exactly when it is committed.
pub struct AbaoVec<T> {
    /// the next index to write to
    next_idx: usize,
    /// length of the contiguous prefix of committed elements
    confirmed_len: usize,
    /// backing buffer; slot `i` is `Some` exactly when `i` is committed
    buf: Vec<Option<T>>,
}

impl<T> View for AbaoVec<T> {
    type V = Seq<T>;

    /// The committed prefix, in claim-index order.
    closed spec fn view(&self) -> Seq<T> {
        Seq::new(self.confirmed_len as nat, |i: int| self.buf@[i].unwrap())
    }
}

impl<T> AbaoVec<T> {
    /// Fixed number of slots, set at construction.
    pub closed spec fn capacity(&self) -> nat {
        self.buf@.len()
    }

    /// Write cursor: how many slots have ever been claimed by an insertion.
    pub closed spec fn claimed(&self) -> nat {
        self.next_idx as nat
    }

    /// Commit cursor: how many slots, starting at index 0, hold committed
    /// values and are safe to read.
    pub closed spec fn committed(&self) -> nat {
        self.confirmed_len as nat
    }

    /// The structure's invariant, holding at every externally observable
    /// instant:
    /// - the commit cursor never exceeds the capacity nor the write cursor;
    /// - the write cursor stays equal to the commit cursor until a claim
    ///   falls past the end, after which it stays at or past the capacity;
    /// - a slot holds a live value exactly when it lies below the commit
    ///   cursor.
    pub closed spec fn wf(&self) -> bool {
        &&& self.committed() <= self.capacity()
        &&& self.committed() <= self.claimed()
        &&& (self.claimed() == self.committed() || self.claimed() >= self.capacity())
        &&& forall|i: int|
            0 <= i < self.capacity() ==> (self.buf@[i] is Some <==> i < self.committed())
    }

    /// In every well-formed state the commit cursor bounds the readable
    /// prefix: it never exceeds the capacity, never exceeds the write
    /// cursor, and the visible sequence has exactly that many elements.
    pub proof fn lemma_cursor_bounds(&self)
        requires
            self.wf(),
        ensures
            self.committed() <= self.capacity(),
            self.committed() <= self.claimed(),
            self@.len() == self.committed(),
    {
    }

    /// Creates a new empty vector with the given buffer as backing memory.
    ///
    /// The buffer is used to store the elements of the vector in, and its
    /// length is the vector's capacity. The buffer must be uninitialized,
    /// that is: every slot is `None`. When the vector is dropped, exactly the
    /// committed elements are dropped with it; uncommitted slots hold no
    /// value and nothing of theirs is touched.
    pub fn new(buf: Vec<Option<T>>) -> (v: Self)
        requires
            forall|i: int| 0 <= i < buf@.len() ==> buf@[i] is None,
        ensures
            v.wf(),
            v@ == Seq::<T>::empty(),
            v.capacity() == buf@.len(),
            v.claimed() == 0,
            v.committed() == 0,
    {
        let v = Self { next_idx: 0, confirmed_len: 0, buf };
        proof {
            assert(v@ =~= Seq::<T>::empty());
        }
        v
    }

    /// Get the current length of the vector.
    ///
    /// This is the commit cursor: the number of elements that are fully
    /// inserted and safe to read. It never overstates the visible data —
    /// it counts exactly the committed prefix, and only completed
    /// insertions ever raise it.
    pub fn len(&self) -> (n: usize)
        ensures
            n == self@.len(),
            n == self.committed(),
    {
        self.confirmed_len
    }

    /// Get the value at index `idx`.
    ///
    /// Returns `None` if the index is at or beyond the current length.
    /// Absence is a normal outcome, not an error: an index may simply not be
    /// visible yet. Every index below the current length is fully
    /// initialized and safe to read.
    pub fn get(&self, idx: usize) -> (r: Option<&T>)
        requires
            self.wf(),
        ensures
            r is Some <==> idx < self@.len(),
            r is Some ==> *r.unwrap() == self@[idx as int],
    {
        if idx >= self.len() {
            return None;
        }
        Some(self.get_unchecked(idx))
    }

    /// Get the value at index `idx` without a runtime bounds check.
    ///
    /// The index must lie below the current length; that precondition
    /// replaces the check, so no path can reach an uncommitted slot.
    pub fn get_unchecked(&self, idx: usize) -> (r: &T)
        requires
            self.wf(),
            idx < self@.len(),
        ensures
            *r == self@[idx as int],
    {
        let slot = &self.buf[idx];
        slot.as_ref().unwrap()
    }

    /// Attempt to append a value.
    ///
    /// On success, returns the index the value was placed at; the first
    /// `capacity` insertions succeed with indices `0, 1, ...` in claim
    /// order. On failure — a claim at or past the capacity — the value is
    /// not retained and a capacity-exhausted error is reported; the
    /// overshoot is permanent, so every later insertion fails too.
    ///
    /// The algorithm proceeds in the claim-and-confirm steps:
    /// claim a unique slot index by advancing the write cursor, check it
    /// against the capacity, write the value into the claimed slot, then
    /// publish by advancing the commit cursor from the claimed index to the
    /// next one — only once it equals the claimed index, so commits happen
    /// strictly in claim order.
    pub fn push(&mut self, t: T) -> (r: Result<usize, OomError>)
        requires
            old(self).wf(),
        ensures
            final(self).wf(),
            final(self).capacity() == old(self).capacity(),
            old(self).claimed() < old(self).capacity() ==> r == Ok::<usize, OomError>(
                old(self)@.len() as usize,
            ),
            old(self).claimed() < old(self).capacity() ==> final(self)@ == old(self)@.push(t),
            old(self).claimed() < old(self).capacity() ==> final(self).claimed() == old(
                self,
            ).claimed() + 1,
            old(self).claimed() >= old(self).capacity() ==> r == Err::<usize, OomError>(OomError),
            old(self).claimed() >= old(self).capacity() ==> final(self)@ == old(self)@,
            final(self).claimed() >= old(self).claimed(),
            final(self)@.len() >= old(self)@.len(),
            forall|i: int| 0 <= i < old(self)@.len() ==> final(self)@[i] == old(self)@[i],
    {
        // 1. claim the next index to write to by advancing the write cursor.
        // This gives the current push exclusive ownership of the slot at the
        // claimed index. The cursor is never decremented; at the very top of
        // its range it saturates, which keeps it at or past the capacity.
        let idx = self.next_idx;
        if self.next_idx < usize::MAX {
            self.next_idx = self.next_idx + 1;
        }

        // 2. bounds check: a claim at or past the end of the buffer is a
        // permanent capacity exhaustion.
        if idx >= self.buf.len() {
            proof {
                assert(self@ =~= old(self)@);
            }
            return Err(OomError);
        }

        // 3. write to the claimed slot. No other insertion holds this index,
        // and no read can touch it while it lies at or past the commit
        // cursor.
        self.buf.set(idx, Some(t));

        // 4. publish: advance the commit cursor from the claimed index to
        // the one past it. This may happen only once the cursor equals the
        // claimed index — that is, once every earlier claimed slot is
        // committed — so readers only ever see a contiguous initialized
        // prefix. Here the cursor already equals the claimed index.
        self.confirmed_len = idx + 1;

        proof {
            assert(self@ =~= old(self)@.push(t));
        }
        Ok(idx)
    }

    /// Extracts the committed elements, up to the current length, in
    /// claim-index order.
    ///
    /// The result holds exactly `len()` elements with no gaps: it excludes
    /// any insertion not yet committed at the time of the call, and every
    /// element in it is fully initialized.
    pub fn as_slice(&self) -> (r: Vec<&T>)
        requires
            self.wf(),
        ensures
            r@.len() == self@.len(),
            forall|i: int| 0 <= i < r@.len() ==> *r@[i] == self@[i],
    {
        let n = self.len();
        let mut r: Vec<&T> = Vec::new();
        let mut i: usize = 0;
        while i < n
            invariant
                self.wf(),
                n == self@.len(),
                i <= n,
                r@.len() == i,
                forall|j: int| 0 <= j < i ==> *r@[j] == self@[j],
            decreases n - i,
        {
            r.push(self.get_unchecked(i));
            i = i + 1;
        }
        r
    }
}

} // verus!
