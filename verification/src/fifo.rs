//! The bounded queue between the mailbox interrupt handler and the main
//! loop: the handler pushes notification tags, the foreground pops them.
//! Two free-running 8-bit cursors index a 64-slot array; the slot of
//! cursor `k` is `k % 64`. When the queue is full a push drops the oldest
//! element silently — the foreground is expected to drain faster than the
//! mailbox can kick.

use vstd::prelude::*;
use vstd::wrapping::u8_specs;

verus! {

/// Capacity of the queue.
pub const FIFO_DEPTH: usize = 64;

/// A single-producer/single-consumer queue of notification tags. On the
/// device the producer runs in interrupt context; the foreground masks
/// interrupts around `pop`, so each operation sees the queue alone.
#[derive(Debug)]
pub struct Fifo {
    /// The 64 slots.
    storage: Vec<u32>,
    /// Cursor of the next push, wrapping at 256.
    write: u8,
    /// Cursor of the next pop, wrapping at 256.
    read: u8,
}

impl Fifo {
    /// Number of queued elements: how far the write cursor has run ahead
    /// of the read cursor.
    pub closed spec fn spec_len(self) -> int {
        u8_specs::wrapping_sub(self.write, self.read) as int
    }

    /// The storage holds 64 slots and the cursors are at most a full
    /// queue apart.
    pub closed spec fn wf(self) -> bool {
        &&& self.storage@.len() == 64
        &&& self.spec_len() <= 64
    }

    /// The queued elements, oldest first.
    pub closed spec fn view(self) -> Seq<u32> {
        Seq::new(self.spec_len() as nat, |i: int| self.storage@[(self.read as int + i) % 64])
    }

    /// An empty queue.
    pub fn new() -> (r: Fifo)
        ensures
            r.wf(),
            r@ == Seq::<u32>::empty(),
    {
        let r = Fifo { storage: vec![0u32; 64], write: 0, read: 0 };
        proof {
            assert(r@ =~= Seq::<u32>::empty());
        }
        r
    }

    /// What one push leaves in the queue: the new element goes to the
    /// back, and a full queue loses its oldest element.
    pub open spec fn spec_push(v: Seq<u32>, data: u32) -> Seq<u32> {
        if v.len() < 64 {
            v.push(data)
        } else {
            v.subrange(1, 64).push(data)
        }
    }

    /// Append `data`; on a full queue the oldest element is dropped
    /// silently.
    pub fn push(&mut self, data: u32)
        requires
            old(self).wf(),
        ensures
            final(self).wf(),
            final(self)@ == Fifo::spec_push(old(self)@, data),
    {
        let dist = self.write.wrapping_sub(self.read);
        if dist as usize >= FIFO_DEPTH {
            // Full: drop the earliest element.
            self.read = self.read.wrapping_add(1);
        }
        let write_idx = (self.write as usize) % FIFO_DEPTH;
        self.storage.set(write_idx, data);
        self.write = self.write.wrapping_add(1);
        proof {
            lemma_mod64_of_mod256(old(self).read as int);
            lemma_mod64_of_mod256(old(self).write as int);
            lemma_push_view(*old(self), *self, data);
        }
    }

    /// Take the oldest element, or `None` if the queue is empty.
    pub fn pop(&mut self) -> (r: Option<u32>)
        requires
            old(self).wf(),
        ensures
            final(self).wf(),
            old(self)@.len() == 0 ==> r is None && *final(self) == *old(self),
            old(self)@.len() > 0 ==> r == Some(old(self)@[0]) && final(self)@ == old(
                self,
            )@.subrange(1, old(self)@.len() as int),
    {
        if self.read == self.write {
            None
        } else {
            let read_idx = (self.read as usize) % FIFO_DEPTH;
            let data = self.storage[read_idx];
            self.read = self.read.wrapping_add(1);
            proof {
                assert(self@ =~= old(self)@.subrange(1, old(self)@.len() as int));
            }
            Some(data)
        }
    }
}

/// Reducing a cursor modulo 256 first does not change its slot, because
/// 64 divides 256.
proof fn lemma_mod64_of_mod256(x: int)
    ensures
        (x % 256) % 64 == x % 64,
{
    vstd::arithmetic::div_mod::lemma_mod_mod(x, 64, 4);
}

/// The element-by-element case analysis behind `push`.
proof fn lemma_push_view(pre: Fifo, post: Fifo, data: u32)
    requires
        pre.wf(),
        post.wf(),
        pre.spec_len() < 64 ==> post.read == pre.read && post.spec_len() == pre.spec_len() + 1,
        pre.spec_len() == 64 ==> post.read as int == (pre.read as int + 1) % 256
            && post.spec_len() == 64,
        post.storage@ == pre.storage@.update((pre.write as int) % 64, data),
        post.write as int == (pre.write as int + 1) % 256,
        pre.spec_len() == u8_specs::wrapping_sub(pre.write, pre.read) as int,
    ensures
        post@ =~= Fifo::spec_push(pre@, data),
{
    let n = pre.spec_len();
    let r = pre.read as int;
    let w = pre.write as int;
    lemma_mod64_of_mod256(r + 1);
    lemma_mod64_of_mod256(w);
    // The write cursor stands `n` past the read cursor modulo 256, hence
    // also modulo 64.
    assert(w % 64 == (r + n) % 64) by {
        assert((r + n) % 256 == w % 256) by {
            assert(u8_specs::wrapping_sub(pre.write, pre.read) as int == n);
        }
        lemma_mod64_of_mod256(r + n);
        lemma_mod64_of_mod256(w);
    }
    if n < 64 {
        assert forall|i: int| 0 <= i < n implies post@[i] == pre@[i] by {
            lemma_slots_differ(r + i, r + n);
        }
        assert(post@[n] == data);
    } else {
        assert forall|i: int| 0 <= i < 63 implies post@[i] == pre@[i + 1] by {
            lemma_slots_differ(r + 1 + i, r + n);
        }
        assert(post@[63] == data) by {
            lemma_mod64_of_mod256(r + 64);
        }
    }
}

/// Two cursors less than a full queue apart use different slots.
proof fn lemma_slots_differ(a: int, b: int)
    requires
        a < b < a + 64,
    ensures
        a % 64 != b % 64,
{
    let d = b - a;
    vstd::arithmetic::div_mod::lemma_add_mod_noop(a, d, 64);
    if a % 64 == b % 64 {
        vstd::arithmetic::div_mod::lemma_mod_equivalence(a, b, 64);
        vstd::arithmetic::div_mod::lemma_small_mod(d as nat, 64);
    }
}

/// Pushing the elements of `s` one by one onto a queue holding `v`.
pub open spec fn spec_push_all(v: Seq<u32>, s: Seq<u32>) -> Seq<u32>
    decreases s.len(),
{
    if s.len() == 0 {
        v
    } else {
        spec_push_all(Fifo::spec_push(v, s[0]), s.drop_first())
    }
}

/// Queue order: pushing `s` onto a queue holding `v` leaves `v + s` when
/// everything fits, and otherwise exactly the latest 64 elements of
/// `v + s` — the earliest are dropped silently, and what remains keeps
/// its order. With `v` empty and `s` no longer than the queue this says a
/// drained queue pops exactly the pushed sequence, oldest first.
pub proof fn lemma_fifo_order(v: Seq<u32>, s: Seq<u32>)
    requires
        v.len() <= 64,
    ensures
        v.len() + s.len() <= 64 ==> spec_push_all(v, s) == v + s,
        v.len() + s.len() > 64 ==> spec_push_all(v, s) == (v + s).subrange(
            v.len() + s.len() - 64,
            (v.len() + s.len()) as int,
        ),
    decreases s.len(),
{
    if s.len() == 0 {
        assert(v + s =~= v);
        if v.len() + s.len() > 64 {
        }
    } else {
        let v1 = Fifo::spec_push(v, s[0]);
        lemma_fifo_order(v1, s.drop_first());
        if v.len() < 64 {
            assert(v1 + s.drop_first() =~= v + s);
            if v.len() + s.len() > 64 {
                assert(spec_push_all(v, s) == (v1 + s.drop_first()).subrange(
                    v1.len() + s.drop_first().len() - 64,
                    (v1.len() + s.drop_first().len()) as int,
                ));
                assert(spec_push_all(v, s) =~= (v + s).subrange(
                    v.len() + s.len() - 64,
                    (v.len() + s.len()) as int,
                ));
            }
        } else {
            // The queue starts full: the first push already drops the
            // oldest element.
            assert(v1 =~= v.subrange(1, 64).push(s[0]));
            if s.len() == 1 {
                assert(spec_push_all(v, s) == v1);
                assert(v1 =~= (v + s).subrange(
                    v.len() + s.len() - 64,
                    (v.len() + s.len()) as int,
                ));
            } else {
                assert(v1 + s.drop_first() =~= (v + s).subrange(1, (v.len() + s.len()) as int));
                assert(spec_push_all(v, s) =~= (v + s).subrange(
                    v.len() + s.len() - 64,
                    (v.len() + s.len()) as int,
                ));
            }
        }
    }
}

} // verus!
