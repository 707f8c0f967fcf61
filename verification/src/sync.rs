//! Synchronization primitives.
//!
//! The kernel objects — semaphores and event flags — are created and
//! waited on through platform calls outside this library; their handles
//! are recorded here. The single-producer single-consumer ring buffer is
//! plain logic and is implemented and verified here against a sequence
//! view of its contents.

use crate::io::SceUid;
use vstd::prelude::*;

verus! {

/// Error from a synchronization operation, wrapping the raw device code.
#[derive(Debug, Clone, Copy, PartialEq, Eq, Structural)]
pub struct SyncError(pub i32);

impl SyncError {
    /// The raw error code.
    pub fn code(self) -> (r: i32)
        ensures
            r == self.0,
    {
        self.0
    }
}

/// A bounded first-in first-out ring buffer with one producer and one
/// consumer. Values sit in a fixed ring of slots; `head` is the slot of
/// the oldest value and `count` how many are queued.
pub struct SpscQueue<T> {
    /// The ring of slots; occupied ones hold Some.
    pub buf: Vec<Option<T>>,
    /// Slot index of the oldest queued value.
    pub head: usize,
    /// How many values are queued.
    pub count: usize,
}

impl<T> SpscQueue<T> {
    /// Well-formedness: a non-empty ring no larger than the 32-bit
    /// counter, the head in range, no more values than slots, and every
    /// queued slot occupied.
    pub open spec fn wf(self) -> bool {
        &&& 1 <= self.buf@.len() <= 0xFFFF_FFFF
        &&& self.head < self.buf@.len()
        &&& self.count <= self.buf@.len()
        &&& forall|k: int|
            0 <= k < self.count ==> (#[trigger] self.buf@[(self.head + k) % (
            self.buf@.len() as int)]) is Some
    }

    /// The queued values, oldest first.
    pub open spec fn view_seq(self) -> Seq<T> {
        Seq::new(
            self.count as nat,
            |k: int| self.buf@[(self.head + k) % (self.buf@.len() as int)]->Some_0,
        )
    }

    /// An empty queue with `capacity` slots. The capacity must be a
    /// power of two, as the ring's index arithmetic assumes.
    pub fn new(capacity: usize) -> (r: Self)
        requires
            1 <= capacity <= 0xFFFF_FFFF,
            capacity & (capacity - 1) as usize == 0,
        ensures
            r.wf(),
            r.view_seq() == Seq::<T>::empty(),
            r.buf@.len() == capacity,
    {
        let mut buf: Vec<Option<T>> = Vec::new();
        let mut i: usize = 0;
        while i < capacity
            invariant
                i <= capacity,
                buf@.len() == i,
            decreases capacity - i,
        {
            buf.push(None);
            i = i + 1;
        }
        let r = SpscQueue { buf, head: 0, count: 0 };
        proof {
            assert(r.view_seq() =~= Seq::<T>::empty());
        }
        r
    }

    /// Push a value at the back. Fails with the value handed back when
    /// the ring is full; otherwise the queued sequence grows by it.
    pub fn push(&mut self, val: T) -> (r: Result<(), T>)
        requires
            old(self).wf(),
        ensures
            final(self).wf(),
            final(self).buf@.len() == old(self).buf@.len(),
            old(self).count == old(self).buf@.len() ==> (r matches Err(v) && v == val
                && final(self).view_seq() == old(self).view_seq()),
            old(self).count < old(self).buf@.len() ==> (r == Ok::<(), T>(())
                && final(self).view_seq() == old(self).view_seq().push(val)),
    {
        if self.count == self.buf.len() {
            proof {
                assert(final(self).view_seq() =~= old(self).view_seq());
            }
            return Err(val);
        }
        let cap = self.buf.len();
        let rem = cap - self.head;
        let idx = if self.count < rem {
            self.head + self.count
        } else {
            self.count - rem
        };
        proof {
            if self.count < rem {
                vstd::arithmetic::div_mod::lemma_small_mod((self.head + self.count) as nat, cap as nat);
            } else {
                vstd::arithmetic::div_mod::lemma_fundamental_div_mod_converse(
                    (self.head + self.count) as int,
                    cap as int,
                    1,
                    (self.head + self.count - cap) as int,
                );
            }
            assert(idx == ((self.head + self.count) as int) % (cap as int));
        }
        let _ = self.buf.remove(idx);
        self.buf.insert(idx, Some(val));
        self.count = self.count + 1;
        proof {
            let s = *self;
            let o = *old(self);
            let cap = o.buf@.len() as int;
            assert(s.buf@ =~= o.buf@.update((o.head + o.count) % cap, Some(val)));
            assert forall|k: int| 0 <= k < s.count implies (#[trigger] s.buf@[(s.head + k)
                % cap]) is Some by {
                vstd::arithmetic::div_mod::lemma_mod_bound(s.head + k, cap);
                if k < o.count {
                    lemma_ring_distinct(o.head as int, cap, k, o.count as int);
                }
            }
            assert forall|k: int| 0 <= k < s.count implies #[trigger] s.view_seq()[k] == o.view_seq().push(
                val,
            )[k] by {
                vstd::arithmetic::div_mod::lemma_mod_bound(s.head + k, cap);
                if k < o.count {
                    lemma_ring_distinct(o.head as int, cap, k, o.count as int);
                }
            }
            assert(s.view_seq() =~= o.view_seq().push(val));
        }
        Ok(())
    }

    /// Pop the oldest value, or None when the queue is empty.
    pub fn pop(&mut self) -> (r: Option<T>)
        requires
            old(self).wf(),
        ensures
            final(self).wf(),
            final(self).buf@.len() == old(self).buf@.len(),
            old(self).count == 0 ==> r == None::<T> && final(self).view_seq() == old(
                self,
            ).view_seq(),
            old(self).count > 0 ==> (r == Some(old(self).view_seq()[0]) && final(self).view_seq()
                == old(self).view_seq().drop_first()),
    {
        if self.count == 0 {
            proof {
                assert(final(self).view_seq() =~= old(self).view_seq());
            }
            return None;
        }
        let cap = self.buf.len();
        let idx = self.head;
        let val = self.buf.remove(idx);
        self.buf.insert(idx, None);
        self.head = (self.head + 1) % cap;
        self.count = self.count - 1;
        proof {
            let s = *self;
            let o = *old(self);
            let cap = o.buf@.len() as int;
            vstd::arithmetic::div_mod::lemma_mod_bound((o.head + 1) as int, cap);
            assert(s.buf@ =~= o.buf@.update(o.head as int, None));
            assert((o.head as int + 0) % cap == o.head as int) by {
                vstd::arithmetic::div_mod::lemma_small_mod(o.head as nat, cap as nat);
            }
            assert forall|k: int| 0 <= k < s.count implies ((#[trigger] s.buf@[(s.head + k)
                % cap]) is Some && s.view_seq()[k] == o.view_seq().drop_first()[k]) by {
                lemma_ring_step(o.head as int, cap, k, o.count as int);
                vstd::arithmetic::div_mod::lemma_mod_bound(s.head + k, cap);
                vstd::arithmetic::div_mod::lemma_mod_bound(o.head + k + 1, cap);
                lemma_ring_distinct(o.head as int, cap, 0, k + 1);
            }
            assert(s.view_seq() =~= o.view_seq().drop_first());
            assert(val matches Some(_));
        }
        match val {
            Some(v) => Some(v),
            None => None,
        }
    }

    /// Whether the queue holds nothing.
    pub fn is_empty(&self) -> (r: bool)
        ensures
            r == (self.view_seq().len() == 0),
    {
        self.count == 0
    }

    /// The number of queued values.
    pub fn len(&self) -> (r: u32)
        requires
            self.wf(),
        ensures
            r == self.view_seq().len(),
    {
        self.count as u32
    }

    /// The total number of slots.
    pub fn capacity(&self) -> (r: usize)
        ensures
            r == self.buf@.len(),
    {
        self.buf.len()
    }
}

/// Distinct in-range ring offsets land on distinct slots: two offsets
/// less than one full turn apart never collide.
proof fn lemma_ring_distinct(head: int, cap: int, k: int, count: int)
    requires
        0 <= head < cap,
        0 <= k < count,
        count < cap,
    ensures
        (head + k) % cap != (head + count) % cap,
{
    if (head + k) % cap == (head + count) % cap {
        vstd::arithmetic::div_mod::lemma_fundamental_div_mod(head + k, cap);
        vstd::arithmetic::div_mod::lemma_fundamental_div_mod(head + count, cap);
        vstd::arithmetic::div_mod::lemma_mod_bound(head + k, cap);
        vstd::arithmetic::div_mod::lemma_mod_bound(head + count, cap);
        let qk = (head + k) / cap;
        let qc = (head + count) / cap;
        assert(count - k == (qc - qk) * cap) by (nonlinear_arith)
            requires
                head + k == cap * qk + (head + k) % cap,
                head + count == cap * qc + (head + count) % cap,
                (head + k) % cap == (head + count) % cap,
        ;
        assert(0 < count - k < cap);
        assert(false) by (nonlinear_arith)
            requires
                count - k == (qc - qk) * cap && 0 < count - k < cap,
        ;
    }
}

/// Stepping the head forward shifts every ring offset by one slot.
proof fn lemma_ring_step(head: int, cap: int, k: int, count: int)
    requires
        0 <= head < cap,
        0 <= k,
        k + 1 <= count,
        count <= cap,
    ensures
        ((head + 1) % cap + k) % cap == (head + k + 1) % cap,
{
    vstd::arithmetic::div_mod::lemma_mod_bound(head + 1, cap);
    vstd::arithmetic::div_mod::lemma_add_mod_noop(head + 1, k, cap);
    assert(k < cap);
    vstd::arithmetic::div_mod::lemma_small_mod(k as nat, cap as nat);
    vstd::arithmetic::div_mod::lemma_mod_twice(head + 1 + k, cap);
    assert(((head + 1) % cap + k) % cap == ((head + 1) % cap + k % cap) % cap);
    assert(((head + 1) % cap + k % cap) % cap == ((head + 1) + k) % cap);
}

/// A kernel semaphore: the id the platform granted at creation.
pub struct Semaphore {
    /// The granted semaphore id.
    pub id: SceUid,
}

impl Semaphore {
    /// Record a create outcome: a non-negative id becomes a semaphore,
    /// a negative one the error code.
    pub fn from_create_result(id: SceUid) -> (r: Result<Self, SyncError>)
        ensures
            id.0 >= 0 ==> (r matches Ok(s) && s.id == id),
            id.0 < 0 ==> r == Err::<Self, SyncError>(SyncError(id.0)),
    {
        if id.0 < 0 {
            Err(SyncError(id.0))
        } else {
            Ok(Semaphore { id })
        }
    }

    /// The kernel id.
    pub fn id(&self) -> (r: SceUid)
        ensures
            r == self.id,
    {
        self.id
    }
}

/// A kernel event flag: the id the platform granted at creation.
pub struct EventFlag {
    /// The granted event-flag id.
    pub id: SceUid,
}

impl EventFlag {
    /// Record a create outcome: a non-negative id becomes an event flag,
    /// a negative one the error code.
    pub fn from_create_result(id: SceUid) -> (r: Result<Self, SyncError>)
        ensures
            id.0 >= 0 ==> (r matches Ok(f) && f.id == id),
            id.0 < 0 ==> r == Err::<Self, SyncError>(SyncError(id.0)),
    {
        if id.0 < 0 {
            Err(SyncError(id.0))
        } else {
            Ok(EventFlag { id })
        }
    }

    /// The kernel id.
    pub fn id(&self) -> (r: SceUid)
        ensures
            r == self.id,
    {
        self.id
    }
}

} // verus!
