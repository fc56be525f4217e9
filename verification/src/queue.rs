//! Fixed-capacity FIFO of frame metadata, for backpressure and
//! latest-frame policies.

use vstd::prelude::*;

use crate::frame::FrameInfo;

verus! {

/// Refusal of a push, handing the frame back.
#[derive(Debug, Clone, Copy, PartialEq, Eq)]
pub enum QueueError<T> {
    Full(T),
    ZeroCapacity(T),
}

/// Array index of the `i`-th queued entry of a ring of `n` slots whose
/// oldest entry sits at `head`.
pub open spec fn ring_slot(head: int, i: int, n: int) -> int {
    if head + i < n {
        head + i
    } else {
        head + i - n
    }
}

proof fn lemma_ring_mod(head: int, i: int, n: int)
    requires
        0 <= head < n,
        0 <= i <= n,
    ensures
        (head + i) % n == ring_slot(head, i, n),
{
    if head + i < n {
        vstd::arithmetic::div_mod::lemma_small_mod((head + i) as nat, n as nat);
    } else {
        vstd::arithmetic::div_mod::lemma_mod_sub_multiples_vanish(head + i, n);
        vstd::arithmetic::div_mod::lemma_small_mod((head + i - n) as nat, n as nat);
    }
}

/// Queue of at most `N` frame descriptions, oldest first.
pub struct FrameQueue<const N: usize> {
    entries: [Option<FrameInfo>; N],
    head: usize,
    len: usize,
    dropped: u64,
}

impl<const N: usize> FrameQueue<N> {
    /// The ring's indices are in range and every queued slot holds an entry.
    #[verifier::type_invariant]
    closed spec fn wf(&self) -> bool {
        &&& self.len <= N
        &&& (N == 0 ==> self.head == 0)
        &&& (N > 0 ==> self.head < N)
        &&& forall|i: int|
            0 <= i < self.len ==> (#[trigger] self.entries@[ring_slot(
                self.head as int,
                i,
                N as int,
            )]) is Some
    }

    /// The queued frames, oldest first.
    pub closed spec fn items(&self) -> Seq<FrameInfo> {
        Seq::new(
            self.len as nat,
            |i: int| self.entries@[ring_slot(self.head as int, i, N as int)].unwrap(),
        )
    }

    /// Number of frames dropped so far (saturating).
    pub closed spec fn dropped_count(&self) -> u64 {
        self.dropped
    }

    pub fn new() -> (q: Self)
        ensures
            q.items() == Seq::<FrameInfo>::empty(),
            q.dropped_count() == 0,
    {
        let q = FrameQueue { entries: [None; N], head: 0, len: 0, dropped: 0 };
        assert(q.items() =~= Seq::<FrameInfo>::empty());
        q
    }

    pub fn capacity(&self) -> (n: usize)
        ensures
            n == N,
    {
        N
    }

    /// Number of queued frames; a queue never holds more than its capacity.
    pub fn len(&self) -> (n: usize)
        ensures
            n == self.items().len(),
            n <= N,
    {
        proof {
            use_type_invariant(self);
        }
        self.len
    }

    pub fn is_empty(&self) -> (b: bool)
        ensures
            b == (self.items().len() == 0),
    {
        self.len == 0
    }

    pub fn is_full(&self) -> (b: bool)
        ensures
            b == (self.items().len() == N),
    {
        self.len == N
    }

    pub fn dropped(&self) -> (d: u64)
        ensures
            d == self.dropped_count(),
    {
        self.dropped
    }

    /// Appends `info`; a full queue, or one of capacity zero, refuses it and
    /// hands it back.
    pub fn push(&mut self, info: FrameInfo) -> (r: Result<(), QueueError<FrameInfo>>)
        ensures
            final(self).dropped_count() == old(self).dropped_count(),
            final(self).items().len() <= N,
            N == 0 ==> r == Err::<(), QueueError<FrameInfo>>(QueueError::ZeroCapacity(info))
                && final(self).items() == old(self).items(),
            N > 0 && old(self).items().len() == N ==> r == Err::<(), QueueError<FrameInfo>>(
                QueueError::Full(info),
            ) && final(self).items() == old(self).items(),
            old(self).items().len() < N ==> r is Ok && final(self).items() == old(
                self,
            ).items().push(info),
    {
        proof {
            use_type_invariant(&*self);
        }
        if N == 0 {
            return Err(QueueError::ZeroCapacity(info));
        }
        if self.is_full() {
            return Err(QueueError::Full(info));
        }
        let ghost before = self.items();
        let head = self.head;
        let len = self.len;
        let tail = if len < N - head {
            head + len
        } else {
            len - (N - head)
        };
        let mut entries = self.entries;
        entries[tail] = Some(info);
        assert forall|i: int| 0 <= i < len + 1 implies (#[trigger] entries@[ring_slot(
            head as int,
            i,
            N as int,
        )]) is Some by {
            if i < len {
                assert(ring_slot(head as int, i, N as int) != tail);
                assert(self.entries@[ring_slot(head as int, i, N as int)] is Some);
            }
        }
        let next = FrameQueue { entries, head, len: len + 1, dropped: self.dropped };
        assert forall|i: int| 0 <= i < before.len() implies next.items()[i] == before[i] by {
            assert(ring_slot(head as int, i, N as int) != tail);
        }
        assert(next.items() =~= before.push(info));
        *self = next;
        Ok(())
    }

    /// Appends `info`; a full queue drops its oldest frame to make room. A
    /// queue of capacity zero drops `info`. Each drop is counted.
    pub fn push_overwrite_oldest(&mut self, info: FrameInfo)
        ensures
            final(self).items().len() <= N,
            N == 0 ==> final(self).items() == old(self).items() && final(self).dropped_count()
                == old(self).dropped_count().saturating_add(1),
            N > 0 && old(self).items().len() == N ==> final(self).items() == old(
                self,
            ).items().drop_first().push(info) && final(self).dropped_count() == old(
                self,
            ).dropped_count().saturating_add(1),
            old(self).items().len() < N ==> final(self).items() == old(self).items().push(info)
                && final(self).dropped_count() == old(self).dropped_count(),
    {
        proof {
            use_type_invariant(&*self);
        }
        if N == 0 {
            let next = FrameQueue {
                entries: self.entries,
                head: self.head,
                len: self.len,
                dropped: self.dropped.saturating_add(1),
            };
            assert(next.items() =~= self.items());
            *self = next;
            return;
        }
        if self.is_full() {
            let ghost before = self.items();
            let old_head = self.head;
            let mut entries = self.entries;
            entries[old_head] = Some(info);
            proof {
                lemma_ring_mod(old_head as int, 1, N as int);
            }
            let head = (old_head + 1) % N;
            assert forall|i: int| 0 <= i < N implies (#[trigger] entries@[ring_slot(
                head as int,
                i,
                N as int,
            )]) is Some && entries@[ring_slot(head as int, i, N as int)].unwrap()
                == before.drop_first().push(info)[i] by {
                if i < N - 1 {
                    assert(ring_slot(head as int, i, N as int) == ring_slot(
                        old_head as int,
                        i + 1,
                        N as int,
                    ));
                    assert(ring_slot(old_head as int, i + 1, N as int) != old_head);
                    assert(self.entries@[ring_slot(old_head as int, i + 1, N as int)] is Some);
                } else {
                    assert(ring_slot(head as int, i, N as int) == old_head);
                }
            }
            let next = FrameQueue {
                entries,
                head,
                len: self.len,
                dropped: self.dropped.saturating_add(1),
            };
            assert(next.items() =~= before.drop_first().push(info));
            *self = next;
            return;
        }
        let _ = self.push(info);
    }

    /// Removes and returns the oldest frame.
    pub fn pop(&mut self) -> (r: Option<FrameInfo>)
        ensures
            final(self).dropped_count() == old(self).dropped_count(),
            final(self).items().len() <= N,
            old(self).items().len() == 0 ==> r == None::<FrameInfo> && final(self).items() == old(
                self,
            ).items(),
            old(self).items().len() > 0 ==> r == Some(old(self).items()[0]) && final(self).items()
                == old(self).items().drop_first(),
    {
        proof {
            use_type_invariant(&*self);
        }
        if self.len == 0 || N == 0 {
            return None;
        }
        let ghost before = self.items();
        let old_head = self.head;
        assert(ring_slot(old_head as int, 0, N as int) == old_head);
        let mut entries = self.entries;
        let item = entries[old_head];
        entries[old_head] = None;
        proof {
            lemma_ring_mod(old_head as int, 1, N as int);
        }
        let head = (old_head + 1) % N;
        let len = self.len - 1;
        assert forall|i: int| 0 <= i < len implies (#[trigger] entries@[ring_slot(
            head as int,
            i,
            N as int,
        )]) is Some && entries@[ring_slot(head as int, i, N as int)] == self.entries@[ring_slot(
            old_head as int,
            i + 1,
            N as int,
        )] by {
            assert(ring_slot(head as int, i, N as int) == ring_slot(
                old_head as int,
                i + 1,
                N as int,
            ));
            assert(ring_slot(old_head as int, i + 1, N as int) != old_head);
            assert(self.entries@[ring_slot(old_head as int, i + 1, N as int)] is Some);
        }
        let next = FrameQueue { entries, head, len, dropped: self.dropped };
        assert(next.items() =~= before.drop_first());
        *self = next;
        item
    }

    /// Removes every queued frame; the drop count stays.
    pub fn clear(&mut self)
        ensures
            final(self).items() == Seq::<FrameInfo>::empty(),
            final(self).dropped_count() == old(self).dropped_count(),
    {
        loop
            invariant
                self.dropped_count() == old(self).dropped_count(),
            ensures
                self.items() == Seq::<FrameInfo>::empty(),
                self.dropped_count() == old(self).dropped_count(),
            decreases self.items().len(),
        {
            let r = self.pop();
            if r.is_none() {
                break;
            }
        }
    }
}

impl<const N: usize> Default for FrameQueue<N> {
    fn default() -> (q: Self)
        ensures
            q.items() == Seq::<FrameInfo>::empty(),
            q.dropped_count() == 0,
    {
        Self::new()
    }
}

} // verus!
