//! Virtio split-ring transport over shared memory.
//!
//! One ring is three contiguous structures: a descriptor table, an
//! "available" ring on which the producer publishes descriptor indices, and
//! a "used" ring on which the consumer returns them. The public `idx`
//! counters are free-running 16-bit values; slot `k` of a ring with `N`
//! entries is `k % N`. Here the shared memory is held as owned data in
//! [`VringMemory`]; the two role objects [`HostVring`] and [`GuestVring`]
//! keep only their private cursors, so a single memory can be driven from
//! both sides exactly as the two processors drive the real ring.

use vstd::arithmetic::power::pow;
use vstd::arithmetic::power2::{is_pow2, pow2};
use vstd::bits::low_bits_mask;
use vstd::prelude::*;
use vstd::wrapping::u16_specs;

verus! {

/// Bitmask of flags set on a `DescriptorEntry`.
#[derive(Debug, Clone, Copy, PartialEq, Eq, Structural)]
pub struct DescriptorFlags(pub u16);

/// The individual flags set on a `DescriptorEntry`.
#[derive(Debug, Clone, Copy)]
pub enum DescriptorFlag {
    /// Marks a buffer as continuing via the `next` field.
    Next,
    /// Marks a buffer as device write-only (else device read-only).
    Write,
    /// This buffer contains a list of buffer descriptors.
    Indirect,
}

impl DescriptorFlag {
    /// Wire value of the flag bit.
    pub open spec fn spec_mask(self) -> u16 {
        match self {
            DescriptorFlag::Next => 1,
            DescriptorFlag::Write => 2,
            DescriptorFlag::Indirect => 4,
        }
    }

    pub fn mask(self) -> (r: u16)
        returns
            self.spec_mask(),
    {
        match self {
            DescriptorFlag::Next => 1,
            DescriptorFlag::Write => 2,
            DescriptorFlag::Indirect => 4,
        }
    }
}

impl DescriptorFlags {
    pub fn is_set(&self, flag: DescriptorFlag) -> (r: bool)
        ensures
            r == (self.0 & flag.spec_mask() != 0),
    {
        self.0 & flag.mask() != 0
    }

    pub fn is_clear(&self, flag: DescriptorFlag) -> (r: bool)
        ensures
            r == (self.0 & flag.spec_mask() == 0),
    {
        !self.is_set(flag)
    }

    pub fn set(&mut self, flag: DescriptorFlag)
        ensures
            final(self).0 == old(self).0 | flag.spec_mask(),
    {
        self.0 |= flag.mask();
    }

    pub fn clear(&mut self, flag: DescriptorFlag)
        ensures
            final(self).0 == old(self).0 & !flag.spec_mask(),
    {
        self.0 &= !flag.mask();
    }
}

/// Bitmask of flags set on the `AvailableRing`.
#[derive(Debug, Clone, Copy, PartialEq, Eq, Structural)]
pub struct AvailableFlags(pub u16);

/// The individual flags set on the `AvailableRing`.
#[derive(Debug, Clone, Copy)]
pub enum AvailableFlag {
    /// Tells the device: do not interrupt me when you consume a buffer.
    NoInterrupt,
}

impl AvailableFlag {
    /// Wire value of the flag bit.
    pub open spec fn spec_mask(self) -> u16 {
        match self {
            AvailableFlag::NoInterrupt => 1,
        }
    }

    pub fn mask(self) -> (r: u16)
        returns
            self.spec_mask(),
    {
        match self {
            AvailableFlag::NoInterrupt => 1,
        }
    }
}

impl AvailableFlags {
    pub fn is_set(&self, flag: AvailableFlag) -> (r: bool)
        ensures
            r == (self.0 & flag.spec_mask() != 0),
    {
        self.0 & flag.mask() != 0
    }

    pub fn is_clear(&self, flag: AvailableFlag) -> (r: bool)
        ensures
            r == (self.0 & flag.spec_mask() == 0),
    {
        !self.is_set(flag)
    }

    pub fn set(&mut self, flag: AvailableFlag)
        ensures
            final(self).0 == old(self).0 | flag.spec_mask(),
    {
        self.0 |= flag.mask();
    }

    pub fn clear(&mut self, flag: AvailableFlag)
        ensures
            final(self).0 == old(self).0 & !flag.spec_mask(),
    {
        self.0 &= !flag.mask();
    }
}

/// Bitmask of flags set on the `UsedRing`.
#[derive(Debug, Clone, Copy, PartialEq, Eq, Structural)]
pub struct UsedFlags(pub u16);

/// The individual flags set on the `UsedRing`.
#[derive(Debug, Clone, Copy)]
pub enum UsedFlag {
    /// Tells the host: do not kick me when you make a buffer available.
    NoNotify,
}

impl UsedFlag {
    /// Wire value of the flag bit.
    pub open spec fn spec_mask(self) -> u16 {
        match self {
            UsedFlag::NoNotify => 1,
        }
    }

    pub fn mask(self) -> (r: u16)
        returns
            self.spec_mask(),
    {
        match self {
            UsedFlag::NoNotify => 1,
        }
    }
}

impl UsedFlags {
    pub fn is_set(&self, flag: UsedFlag) -> (r: bool)
        ensures
            r == (self.0 & flag.spec_mask() != 0),
    {
        self.0 & flag.mask() != 0
    }

    pub fn is_clear(&self, flag: UsedFlag) -> (r: bool)
        ensures
            r == (self.0 & flag.spec_mask() == 0),
    {
        !self.is_set(flag)
    }

    pub fn set(&mut self, flag: UsedFlag)
        ensures
            final(self).0 == old(self).0 | flag.spec_mask(),
    {
        self.0 |= flag.mask();
    }

    pub fn clear(&mut self, flag: UsedFlag)
        ensures
            final(self).0 == old(self).0 & !flag.spec_mask(),
    {
        self.0 &= !flag.mask();
    }
}

/// Errors that can occur on a ring operation. Every error is terminal to
/// that one operation and leaves the ring untouched.
#[derive(Debug, Clone, Copy, PartialEq, Eq, Structural)]
pub enum Error {
    /// The free list of descriptors is drained (host role only).
    OutOfMemory,
    /// The consumer observed no new work.
    NoData,
    /// An invariant was violated, e.g. a descriptor index out of range.
    InternalError,
    /// A transmit payload exceeds the offered buffer.
    PayloadTooLarge,
}

/// Describes one buffer in shared memory. `addr` carries the host-physical
/// address of the buffer; in this model the buffer bytes themselves are
/// reached through the descriptor's index into [`VringMemory::buffers`].
#[derive(Debug, Clone, Copy, PartialEq, Eq, Structural)]
pub struct DescriptorEntry {
    /// Physical address of this buffer.
    pub addr: u64,
    /// Length of this buffer.
    pub len: u32,
    /// Flags for this buffer.
    pub flags: DescriptorFlags,
    /// Only valid if the `Next` flag is set.
    pub next: u16,
}

/// A ring of buffer descriptors. Indices into this table are what the other
/// two rings carry.
#[derive(Debug)]
pub struct DescriptorRing {
    /// The descriptor table, one entry per buffer.
    pub ring: Vec<DescriptorEntry>,
}

/// An entry in the available ring. Points to a descriptor.
#[derive(Debug, Clone, Copy, PartialEq, Eq, Structural)]
pub struct AvailableEntry {
    /// Index of a descriptor.
    pub idx: u16,
}

/// The ring on which the producer offers descriptors to the consumer.
/// `idx` is free-running and wraps at 65536; entry `k` lives at slot
/// `k % N`.
#[derive(Debug)]
pub struct AvailableRing {
    /// Flags for this ring.
    pub flags: AvailableFlags,
    /// Counter of entries ever published on this ring.
    pub idx: u16,
    /// The ring of available entries.
    pub ring: Vec<AvailableEntry>,
}

/// An entry in the used ring: a descriptor index and how many bytes of it
/// were written or consumed.
#[derive(Debug, Clone, Copy, PartialEq, Eq, Structural)]
pub struct UsedEntry {
    /// Index of the descriptor being returned.
    pub idx: u32,
    /// Total length used.
    pub len: u32,
}

/// The ring on which the consumer returns descriptors to the producer.
#[derive(Debug)]
pub struct UsedRing {
    /// Flags for this ring.
    pub flags: UsedFlags,
    /// Counter of entries ever returned on this ring.
    pub idx: u16,
    /// The ring of used entries.
    pub ring: Vec<UsedEntry>,
}

/// The shared memory of one ring: descriptor table, available ring, used
/// ring and the buffers the descriptors point at. On the device the three
/// ring structures live contiguously at the addresses that
/// [`ring_addresses`] computes, and `buffers[i]` stands for the memory
/// behind `descriptors.ring[i].addr`.
#[derive(Debug)]
pub struct VringMemory {
    /// The descriptor table.
    pub descriptors: DescriptorRing,
    /// The producer-side ring.
    pub available: AvailableRing,
    /// The consumer-side ring.
    pub used: UsedRing,
    /// The buffer bytes behind each descriptor.
    pub buffers: Vec<Vec<u8>>,
}

/// Ring slot that counter value `k` addresses in a ring of `n` entries.
pub open spec fn slot(k: u16, n: int) -> int
    recommends
        n >= 1,
{
    k as int % n
}

impl VringMemory {
    /// Number of descriptors, which equals the length of all three rings.
    pub open spec fn entry_count(self) -> int {
        self.descriptors.ring@.len() as int
    }

    /// The three rings and the buffer table agree on the entry count, and
    /// no descriptor claims more bytes than its buffer holds.
    pub open spec fn wf(self) -> bool {
        &&& 1 <= self.entry_count()
        &&& self.available.ring@.len() == self.entry_count()
        &&& self.used.ring@.len() == self.entry_count()
        &&& self.buffers@.len() == self.entry_count()
        &&& forall|i: int|
            0 <= i < self.entry_count() ==> (#[trigger] self.descriptors.ring@[i]).len as int
                <= self.buffers@[i]@.len()
        &&& forall|i: int|
            0 <= i < self.entry_count() ==> (#[trigger] self.buffers@[i])@.len() <= u32::MAX
    }

    /// Descriptor `i` of a freshly initialised ring: every buffer is
    /// device-writable and chained to its successor through `next`, as a
    /// host primes a ring before offering buffers.
    pub open spec fn spec_initial_descriptor(i: int, n: int, buffer_len: u32) -> DescriptorEntry {
        if i + 1 < n {
            DescriptorEntry {
                addr: 0,
                len: buffer_len,
                flags: DescriptorFlags(3),
                next: (i + 1) as u16,
            }
        } else {
            DescriptorEntry { addr: 0, len: buffer_len, flags: DescriptorFlags(2), next: 0 }
        }
    }

    /// Build the memory of a ring of `entries` descriptors, each backed by
    /// a zeroed buffer of `buffer_len` bytes, chained into one free list.
    pub fn new(entries: u16, buffer_len: u32) -> (r: VringMemory)
        requires
            1 <= entries,
        ensures
            r.wf(),
            r.entry_count() == entries as int,
            r.available.flags == (AvailableFlags(0)),
            r.available.idx == 0,
            r.used.flags == (UsedFlags(0)),
            r.used.idx == 0,
            forall|i: int|
                0 <= i < entries as int ==> r.descriptors.ring@[i]
                    == VringMemory::spec_initial_descriptor(i, entries as int, buffer_len),
            forall|i: int|
                0 <= i < entries as int ==> (#[trigger] r.available.ring@[i]) == (AvailableEntry {
                    idx: 0,
                }),
            forall|i: int|
                0 <= i < entries as int ==> (#[trigger] r.used.ring@[i]) == (UsedEntry {
                    idx: 0,
                    len: 0,
                }),
            forall|i: int|
                0 <= i < entries as int ==> (#[trigger] r.buffers@[i])@ == Seq::new(
                    buffer_len as nat,
                    |j: int| 0u8,
                ),
    {
        let n = entries as usize;
        let mut descriptors: Vec<DescriptorEntry> = Vec::new();
        let mut available: Vec<AvailableEntry> = Vec::new();
        let mut used: Vec<UsedEntry> = Vec::new();
        let mut buffers: Vec<Vec<u8>> = Vec::new();
        let mut i: usize = 0;
        while i < n
            invariant
                i <= n,
                n == entries as int,
                descriptors@.len() == i,
                available@.len() == i,
                used@.len() == i,
                buffers@.len() == i,
                forall|j: int|
                    0 <= j < i as int ==> descriptors@[j] == VringMemory::spec_initial_descriptor(
                        j,
                        n as int,
                        buffer_len,
                    ),
                forall|j: int|
                    0 <= j < i as int ==> (#[trigger] available@[j]) == (AvailableEntry { idx: 0 }),
                forall|j: int|
                    0 <= j < i as int ==> (#[trigger] used@[j]) == (UsedEntry { idx: 0, len: 0 }),
                forall|j: int|
                    0 <= j < i as int ==> (#[trigger] buffers@[j])@ == Seq::new(
                        buffer_len as nat,
                        |k: int| 0u8,
                    ),
            decreases n - i,
        {
            if i + 1 < n {
                descriptors.push(
                    DescriptorEntry {
                        addr: 0,
                        len: buffer_len,
                        flags: DescriptorFlags(3),
                        next: (i + 1) as u16,
                    },
                );
            } else {
                descriptors.push(
                    DescriptorEntry { addr: 0, len: buffer_len, flags: DescriptorFlags(2), next: 0 },
                );
            }
            available.push(AvailableEntry { idx: 0 });
            used.push(UsedEntry { idx: 0, len: 0 });
            buffers.push(vec![0u8; buffer_len as usize]);
            i = i + 1;
        }
        VringMemory {
            descriptors: DescriptorRing { ring: descriptors },
            available: AvailableRing { flags: AvailableFlags(0), idx: 0, ring: available },
            used: UsedRing { flags: UsedFlags(0), idx: 0, ring: used },
            buffers,
        }
    }
}

/// One descriptor taken off the available ring by the guest: its index,
/// the descriptor as the host presented it, and a copy of the buffer bytes
/// it described.
#[derive(Debug)]
pub struct ConsumedBuffer {
    /// Index of the descriptor in the table.
    pub index: u16,
    /// The descriptor as read from the table.
    pub descriptor: DescriptorEntry,
    /// The `descriptor.len` bytes of the buffer.
    pub bytes: Vec<u8>,
}

/// Represents a Guest view of a vring: the consumer of the available ring.
/// Holds only the guest's private cursor; the shared memory is passed to
/// each operation.
#[derive(Debug, Clone, Copy, PartialEq, Eq, Structural)]
pub struct GuestVring {
    /// Number of descriptors in the ring this role drives.
    pub entries: usize,
    /// Counter of available entries this guest has consumed so far.
    pub last_seen_available: u16,
}

impl GuestVring {
    /// The role matches the given memory.
    pub open spec fn wf_for(self, mem: VringMemory) -> bool {
        self.entries as int == mem.entry_count()
    }

    /// The producer has published entries this guest has not consumed yet.
    pub open spec fn spec_has_work(self, mem: VringMemory) -> bool {
        self.last_seen_available != mem.available.idx
    }

    /// Slot of the next available entry to consume.
    pub open spec fn spec_next_slot(self, mem: VringMemory) -> int {
        slot(self.last_seen_available, mem.entry_count())
    }

    /// Descriptor index published in the next available entry.
    pub open spec fn spec_next_descriptor(self, mem: VringMemory) -> int {
        mem.available.ring@[self.spec_next_slot(mem)].idx as int
    }

    /// Creates a new guest role for a ring of `entries` descriptors.
    pub fn new(entries: usize) -> (r: GuestVring)
        ensures
            r == (GuestVring { entries, last_seen_available: 0u16 }),
    {
        GuestVring { entries, last_seen_available: 0 }
    }

    /// Take the next item from the available ring and return it to the
    /// used ring; the returned copy of descriptor and bytes is what a
    /// consumer callback would have seen.
    ///
    /// Exactly one of three things happens: nothing was available
    /// (`NoData`), the published descriptor index was out of range
    /// (`InternalError`), or one descriptor moved from available to used
    /// and both the used counter and the guest cursor advanced by one.
    /// The failures leave ring and role untouched.
    pub fn process(&mut self, mem: &mut VringMemory) -> (r: Result<ConsumedBuffer, Error>)
        requires
            old(mem).wf(),
            old(self).wf_for(*old(mem)),
        ensures
            final(mem).wf(),
            final(self).wf_for(*final(mem)),
            !old(self).spec_has_work(*old(mem)) ==> r is Err && r->Err_0 == Error::NoData
                && *final(mem) == *old(mem) && *final(self) == *old(self),
            old(self).spec_has_work(*old(mem)) && old(self).spec_next_descriptor(*old(mem)) >= old(
                mem,
            ).entry_count() ==> r is Err && r->Err_0 == Error::InternalError && *final(mem)
                == *old(mem) && *final(self) == *old(self),
            old(self).spec_has_work(*old(mem)) && old(self).spec_next_descriptor(*old(mem)) < old(
                mem,
            ).entry_count() ==> ({
                let n = old(mem).entry_count();
                let d = old(self).spec_next_descriptor(*old(mem));
                let desc = old(mem).descriptors.ring@[d];
                &&& r is Ok
                &&& r->Ok_0.index as int == d
                &&& r->Ok_0.descriptor == desc
                &&& r->Ok_0.bytes@ == old(mem).buffers@[d]@.subrange(0, desc.len as int)
                &&& *final(self) == (GuestVring {
                    entries: old(self).entries,
                    last_seen_available: u16_specs::wrapping_add(old(self).last_seen_available, 1),
                })
                &&& final(mem).descriptors == old(mem).descriptors
                &&& final(mem).available == old(mem).available
                &&& final(mem).buffers == old(mem).buffers
                &&& final(mem).used.flags == old(mem).used.flags
                &&& final(mem).used.idx == u16_specs::wrapping_add(old(mem).used.idx, 1)
                &&& final(mem).used.ring@ == old(mem).used.ring@.update(
                    slot(old(mem).used.idx, n),
                    UsedEntry { idx: d as u32, len: desc.len },
                )
            }),
    {
        if self.last_seen_available == mem.available.idx {
            return Err(Error::NoData);
        }
        let n = self.entries;
        let s = (self.last_seen_available as usize) % n;
        let d = mem.available.ring[s].idx as usize;
        if d >= n {
            return Err(Error::InternalError);
        }
        let desc = mem.descriptors.ring[d];
        let bytes = copy_buffer_prefix(&mem.buffers, d, desc.len as usize);
        self.release_current(mem);
        Ok(ConsumedBuffer { index: d as u16, descriptor: desc, bytes })
    }

    /// Move the descriptor under the guest cursor to the used ring and
    /// advance both the used counter and the cursor by one.
    pub(crate) fn release_current(&mut self, mem: &mut VringMemory)
        requires
            old(mem).wf(),
            old(self).wf_for(*old(mem)),
            old(self).spec_has_work(*old(mem)),
            old(self).spec_next_descriptor(*old(mem)) < old(mem).entry_count(),
        ensures
            final(mem).wf(),
            final(self).wf_for(*final(mem)),
            ({
                let n = old(mem).entry_count();
                let d = old(self).spec_next_descriptor(*old(mem));
                let desc = old(mem).descriptors.ring@[d];
                &&& *final(self) == (GuestVring {
                    entries: old(self).entries,
                    last_seen_available: u16_specs::wrapping_add(old(self).last_seen_available, 1),
                })
                &&& final(mem).descriptors == old(mem).descriptors
                &&& final(mem).available == old(mem).available
                &&& final(mem).buffers == old(mem).buffers
                &&& final(mem).used.flags == old(mem).used.flags
                &&& final(mem).used.idx == u16_specs::wrapping_add(old(mem).used.idx, 1)
                &&& final(mem).used.ring@ == old(mem).used.ring@.update(
                    slot(old(mem).used.idx, n),
                    UsedEntry { idx: d as u32, len: desc.len },
                )
            }),
    {
        let n = self.entries;
        let s = (self.last_seen_available as usize) % n;
        let d = mem.available.ring[s].idx as usize;
        let desc_len = mem.descriptors.ring[d].len;
        let us = (mem.used.idx as usize) % n;
        mem.used.ring.set(us, UsedEntry { idx: d as u32, len: desc_len });
        mem.used.idx = mem.used.idx.wrapping_add(1);
        self.last_seen_available = self.last_seen_available.wrapping_add(1);
    }

    /// Fill the next available buffer with `payload1 || payload2`, shrink
    /// its descriptor to the written length, and move it to the used ring.
    /// This is both how replies are sent and how consumed descriptors are
    /// handed back: each success consumes exactly one available entry and
    /// produces exactly one used entry.
    ///
    /// Fails `NoData` with no available buffer, `InternalError` on a
    /// descriptor index out of range, and `PayloadTooLarge` when the two
    /// fragments together exceed the buffer length the host presented;
    /// every failure leaves ring and role untouched.
    pub fn transmit(&mut self, mem: &mut VringMemory, payload1: &[u8], payload2: &[u8]) -> (r:
        Result<(), Error>)
        requires
            old(mem).wf(),
            old(self).wf_for(*old(mem)),
            payload1@.len() + payload2@.len() <= usize::MAX,
        ensures
            final(mem).wf(),
            final(self).wf_for(*final(mem)),
            ({
                let has_work = old(self).spec_has_work(*old(mem));
                let d = old(self).spec_next_descriptor(*old(mem));
                let in_range = d < old(mem).entry_count();
                let total = payload1@.len() + payload2@.len();
                let fits = in_range && total <= old(mem).descriptors.ring@[d].len as int;
                let untouched = *final(mem) == *old(mem) && *final(self) == *old(self);
                &&& !has_work ==> r == Err::<(), Error>(Error::NoData) && untouched
                &&& has_work && !in_range ==> r == Err::<(), Error>(Error::InternalError)
                    && untouched
                &&& has_work && in_range && !fits ==> r == Err::<(), Error>(Error::PayloadTooLarge)
                    && untouched
            }),
            old(self).spec_has_work(*old(mem)) && old(self).spec_next_descriptor(*old(mem)) < old(
                mem,
            ).entry_count() && payload1@.len() + payload2@.len() <= old(
                mem,
            ).descriptors.ring@[old(self).spec_next_descriptor(*old(mem))].len as int ==> ({
                let n = old(mem).entry_count();
                let d = old(self).spec_next_descriptor(*old(mem));
                let desc = old(mem).descriptors.ring@[d];
                let total = payload1@.len() + payload2@.len();
                &&& r == Ok::<(), Error>(())
                &&& *final(self) == (GuestVring {
                    entries: old(self).entries,
                    last_seen_available: u16_specs::wrapping_add(old(self).last_seen_available, 1),
                })
                &&& final(mem).available == old(mem).available
                &&& final(mem).descriptors.ring@ == old(mem).descriptors.ring@.update(
                    d,
                    DescriptorEntry {
                        addr: desc.addr,
                        len: total as u32,
                        flags: DescriptorFlags(0),
                        next: 0,
                    },
                )
                &&& final(mem).buffers@ =~= old(mem).buffers@.update(
                    d,
                    final(mem).buffers@[d],
                )
                &&& final(mem).buffers@[d]@ == payload1@ + payload2@ + old(mem).buffers@[d]@.skip(
                    total as int,
                )
                &&& final(mem).used.flags == old(mem).used.flags
                &&& final(mem).used.idx == u16_specs::wrapping_add(old(mem).used.idx, 1)
                &&& final(mem).used.ring@ == old(mem).used.ring@.update(
                    slot(old(mem).used.idx, n),
                    UsedEntry { idx: d as u32, len: total as u32 },
                )
            }),
    {
        if self.last_seen_available == mem.available.idx {
            return Err(Error::NoData);
        }
        let n = self.entries;
        let s = (self.last_seen_available as usize) % n;
        let d = mem.available.ring[s].idx as usize;
        if d >= n {
            return Err(Error::InternalError);
        }
        let desc = mem.descriptors.ring[d];
        let length1 = payload1.len();
        let length2 = payload2.len();
        let length = length1 + length2;
        if length > desc.len as usize {
            return Err(Error::PayloadTooLarge);
        }
        let buffer = &mut mem.buffers[d];
        write_bytes_at(buffer, 0, payload1);
        write_bytes_at(buffer, length1, payload2);
        mem.descriptors.ring.set(
            d,
            DescriptorEntry { addr: desc.addr, len: length as u32, flags: DescriptorFlags(0), next: 0 },
        );
        self.release_current(mem);
        Ok(())
    }
}

/// Represents a Host view of a vring: the producer of the available ring.
/// Unused descriptors form an intrusive free list chained through their
/// `next` fields; `head` is its first index.
#[derive(Debug, Clone, Copy, PartialEq, Eq, Structural)]
pub struct HostVring {
    /// Number of descriptors in the ring this role drives.
    pub entries: usize,
    /// First descriptor of the free list, if any is left.
    pub head: Option<u16>,
    /// Counter of used entries this host has already recovered.
    pub last_seen_used: u16,
}

impl HostVring {
    /// The role matches the given memory.
    pub open spec fn wf_for(self, mem: VringMemory) -> bool {
        self.entries as int == mem.entry_count()
    }

    /// Creates a new host role for a ring of `entries` descriptors whose
    /// free list starts at descriptor 0, the way [`VringMemory::new`]
    /// chains them.
    pub fn new(entries: usize) -> (r: HostVring)
        ensures
            r == (HostVring { entries, head: Some(0u16), last_seen_used: 0u16 }),
    {
        HostVring { entries, head: Some(0), last_seen_used: 0 }
    }

    /// Pop the head of the free list, store `data` in its buffer, present
    /// it with length `len` and flags `flags`, and publish its index on
    /// the available ring.
    ///
    /// Fails `OutOfMemory` when the free list is empty, `InternalError`
    /// when the list head is out of range, and `PayloadTooLarge` when
    /// `len` exceeds the buffer behind the descriptor; every failure
    /// leaves ring and role untouched.
    pub fn give_to_guest(&mut self, mem: &mut VringMemory, data: &[u8], len: u32, flags: DescriptorFlags) -> (r: Result<(), Error>)
        requires
            old(mem).wf(),
            old(self).wf_for(*old(mem)),
            data@.len() <= len,
        ensures
            final(mem).wf(),
            final(self).wf_for(*final(mem)),
            ({
                let in_range = old(self).head is Some && old(self).head->0 < old(mem).entry_count();
                let h = old(self).head->0 as int;
                let fits = in_range && len as int <= old(mem).buffers@[h]@.len();
                let untouched = *final(mem) == *old(mem) && *final(self) == *old(self);
                &&& old(self).head is None ==> r == Err::<(), Error>(Error::OutOfMemory)
                    && untouched
                &&& old(self).head is Some && !in_range ==> r == Err::<(), Error>(
                    Error::InternalError,
                ) && untouched
                &&& in_range && !fits ==> r == Err::<(), Error>(Error::PayloadTooLarge)
                    && untouched
            }),
            old(self).head is Some && old(self).head->0 < old(mem).entry_count() && len as int
                <= old(mem).buffers@[old(self).head->0 as int]@.len() ==> ({
                let n = old(mem).entry_count();
                let h = old(self).head->0 as int;
                let desc = old(mem).descriptors.ring@[h];
                let chained = desc.flags.0 & DescriptorFlag::Next.spec_mask() != 0;
                &&& r == Ok::<(), Error>(())
                &&& *final(self) == (HostVring {
                    entries: old(self).entries,
                    head: if chained {
                        Some(desc.next)
                    } else {
                        None
                    },
                    last_seen_used: old(self).last_seen_used,
                })
                &&& final(mem).descriptors.ring@ == old(mem).descriptors.ring@.update(
                    h,
                    DescriptorEntry { addr: desc.addr, len, flags, next: 0 },
                )
                &&& final(mem).buffers@ =~= old(mem).buffers@.update(h, final(mem).buffers@[h])
                &&& final(mem).buffers@[h]@ == data@ + old(mem).buffers@[h]@.skip(
                    data@.len() as int,
                )
                &&& final(mem).used == old(mem).used
                &&& final(mem).available.flags == old(mem).available.flags
                &&& final(mem).available.idx == u16_specs::wrapping_add(
                    old(mem).available.idx,
                    1,
                )
                &&& final(mem).available.ring@ == old(mem).available.ring@.update(
                    slot(old(mem).available.idx, n),
                    AvailableEntry { idx: old(self).head->0 },
                )
            }),
    {
        let head = match self.head {
            Some(h) => h,
            None => {
                return Err(Error::OutOfMemory);
            },
        };
        let n = self.entries;
        let h = head as usize;
        if h >= n {
            return Err(Error::InternalError);
        }
        let desc = mem.descriptors.ring[h];
        if (len as usize) > mem.buffers[h].len() {
            return Err(Error::PayloadTooLarge);
        }
        if desc.flags.is_set(DescriptorFlag::Next) {
            // The descriptor is detached from the list; its successor
            // becomes the new head.
            self.head = Some(desc.next);
        } else {
            // No more descriptors in the list.
            self.head = None;
        }
        let buffer = &mut mem.buffers[h];
        write_bytes_at(buffer, 0, data);
        mem.descriptors.ring.set(
            h,
            DescriptorEntry { addr: desc.addr, len, flags, next: 0 },
        );
        let s = (mem.available.idx as usize) % n;
        mem.available.ring.set(s, AvailableEntry { idx: head });
        mem.available.idx = mem.available.idx.wrapping_add(1);
        Ok(())
    }

    /// Take one entry off the used ring, push the descriptor it names back
    /// onto the free list, and return a copy of the entry.
    ///
    /// Fails `NoData` when the guest has returned nothing new, and
    /// `InternalError` on a used entry naming a descriptor out of range;
    /// both leave ring and role untouched.
    pub fn take_from_guest(&mut self, mem: &mut VringMemory) -> (r: Result<UsedEntry, Error>)
        requires
            old(mem).wf(),
            old(self).wf_for(*old(mem)),
        ensures
            final(mem).wf(),
            final(self).wf_for(*final(mem)),
            ({
                let has_work = old(self).last_seen_used != old(mem).used.idx;
                let e = old(mem).used.ring@[slot(old(self).last_seen_used, old(mem).entry_count())];
                let untouched = *final(mem) == *old(mem) && *final(self) == *old(self);
                &&& !has_work ==> r == Err::<UsedEntry, Error>(Error::NoData) && untouched
                &&& has_work && e.idx as int >= old(mem).entry_count() ==> r == Err::<
                    UsedEntry,
                    Error,
                >(Error::InternalError) && untouched
            }),
            old(self).last_seen_used != old(mem).used.idx && (old(mem).used.ring@[slot(
                old(self).last_seen_used,
                old(mem).entry_count(),
            )].idx as int) < old(mem).entry_count() ==> ({
                let n = old(mem).entry_count();
                let e = old(mem).used.ring@[slot(old(self).last_seen_used, n)];
                let desc = old(mem).descriptors.ring@[e.idx as int];
                let relinked = if old(self).head is Some {
                    DescriptorEntry {
                        addr: desc.addr,
                        len: desc.len,
                        flags: DescriptorFlags(
                            desc.flags.0 | DescriptorFlag::Next.spec_mask(),
                        ),
                        next: old(self).head->0,
                    }
                } else {
                    DescriptorEntry {
                        addr: desc.addr,
                        len: desc.len,
                        flags: DescriptorFlags(
                            desc.flags.0 & !DescriptorFlag::Next.spec_mask(),
                        ),
                        next: 0,
                    }
                };
                &&& r == Ok::<UsedEntry, Error>(e)
                &&& *final(self) == (HostVring {
                    entries: old(self).entries,
                    head: Some(e.idx as u16),
                    last_seen_used: u16_specs::wrapping_add(old(self).last_seen_used, 1),
                })
                &&& final(mem).descriptors.ring@ == old(mem).descriptors.ring@.update(
                    e.idx as int,
                    relinked,
                )
                &&& final(mem).available == old(mem).available
                &&& final(mem).used == old(mem).used
                &&& final(mem).buffers == old(mem).buffers
            }),
    {
        if self.last_seen_used == mem.used.idx {
            return Err(Error::NoData);
        }
        let n = self.entries;
        let s = (self.last_seen_used as usize) % n;
        let e = mem.used.ring[s];
        let d = e.idx as usize;
        if d >= n {
            return Err(Error::InternalError);
        }
        let mut desc = mem.descriptors.ring[d];
        match self.head {
            Some(h) => {
                desc.flags.set(DescriptorFlag::Next);
                desc.next = h;
            },
            None => {
                desc.flags.clear(DescriptorFlag::Next);
                desc.next = 0;
            },
        }
        mem.descriptors.ring.set(d, desc);
        self.head = Some(e.idx as u16);
        self.last_seen_used = self.last_seen_used.wrapping_add(1);
        Ok(e)
    }
}

/// Ring-counter monotonicity: each publish or consume advances the
/// owner's counter by exactly one, non-decreasing modulo 65536 — the
/// successor that `process`, `transmit`, `give_to_guest` and
/// `take_from_guest` state for their counters is the old value plus one,
/// reduced modulo 65536.
pub proof fn lemma_counter_step(c: u16)
    ensures
        u16_specs::wrapping_add(c, 1) as int == (c as int + 1) % 0x10000,
{
}

/// A descriptor index published at ring slot `k % N` is read back from the
/// very same slot by a consumer whose counter equals `k`, for every counter
/// value `k` and every entry count `N` in `[1, 32768]`.
pub proof fn lemma_slot_wrapping(ring: Seq<AvailableEntry>, k: u16, d: u16)
    requires
        1 <= ring.len() <= 32768,
    ensures
        ring.update(slot(k, ring.len() as int), AvailableEntry { idx: d })[slot(
            k,
            ring.len() as int,
        )].idx == d,
{
}

/// Copy the first `len` bytes of buffer `i`.
pub(crate) fn copy_buffer_prefix(buffers: &Vec<Vec<u8>>, i: usize, len: usize) -> (r: Vec<u8>)
    requires
        i < buffers@.len(),
        len as int <= buffers@[i as int]@.len(),
    ensures
        r@ == buffers@[i as int]@.subrange(0, len as int),
{
    let src = &buffers[i];
    let mut r: Vec<u8> = Vec::new();
    let mut j: usize = 0;
    while j < len
        invariant
            j <= len,
            len as int <= src@.len(),
            src@ == buffers@[i as int]@,
            r@ == src@.subrange(0, j as int),
        decreases len - j,
    {
        r.push(src[j]);
        proof {
            assert(r@ =~= src@.subrange(0, j + 1 as int));
        }
        j = j + 1;
    }
    r
}

/// Overwrite `buf[offset .. offset + data.len()]` with `data`, leaving the
/// rest of the buffer as it was.
pub(crate) fn write_bytes_at(buf: &mut Vec<u8>, offset: usize, data: &[u8])
    requires
        offset + data@.len() <= old(buf)@.len(),
    ensures
        final(buf)@.len() == old(buf)@.len(),
        final(buf)@ == old(buf)@.subrange(0, offset as int) + data@ + old(buf)@.skip(
            offset + data@.len(),
        ),
{
    let len = data.len();
    let cap = buf.len();
    let mut j: usize = 0;
    while j < len
        invariant
            j <= len,
            offset + len <= cap,
            cap == buf@.len(),
            buf@.len() == old(buf)@.len(),
            data@.len() == len,
            buf@ =~= old(buf)@.subrange(0, offset as int) + data@.subrange(0, j as int) + old(
                buf,
            )@.skip(offset + j as int),
        decreases len - j,
    {
        buf.set(offset + j, data[j]);
        proof {
            assert(buf@ =~= old(buf)@.subrange(0, offset as int) + data@.subrange(0, j + 1 as int)
                + old(buf)@.skip(offset + j + 1 as int));
        }
        j = j + 1;
    }
    proof {
        assert(data@.subrange(0, len as int) =~= data@);
        assert(buf@ =~= old(buf)@.subrange(0, offset as int) + data@ + old(buf)@.skip(
            offset + len as int,
        ));
    }
}

/// Device status bit: the host has noticed the device.
pub const VIRTIO_CONFIG_S_ACKNOWLEDGE: u8 = 1;

/// Device status bit: the host has a driver for the device.
pub const VIRTIO_CONFIG_S_DRIVER: u8 = 2;

/// Device status bit: the driver is ready to drive the device.
pub const VIRTIO_CONFIG_S_DRIVER_OK: u8 = 4;

/// Virtio device id of a console.
pub const VIRTIO_ID_CONSOLE: u32 = 3;

/// Virtio device id of remote processor messaging.
pub const VIRTIO_ID_RPMSG: u32 = 7;

/// Where the three parts of a ring live, given the ring's base device
/// address, entry count and alignment: the descriptor table starts at the
/// base and takes 16 bytes per entry, the available ring follows it with
/// 6 + 2 bytes per entry, and the used ring starts at the next aligned
/// address after that.
pub fn ring_addresses(addr: u64, entries: u64, align: u64) -> (r: (u64, u64, u64))
    requires
        is_pow2(align as int),
        addr + 16 * entries + 6 + 2 * entries + align - 1 <= u64::MAX,
    ensures
        r.0 == addr,
        r.1 == addr + 16 * entries,
        r.2 == spec_align_up(addr + 16 * entries + 6 + 2 * entries, align as int),
        r.2 % align == 0,
{
    proof {
        lemma_pow2_positive(align as int);
    }
    let available_addr = addr + 16 * entries;
    let available_end = available_addr + 6 + 2 * entries;
    let used_addr = align_address(available_end, align);
    (addr, available_addr, used_addr)
}

/// The least multiple of `a` that is at least `x`.
pub open spec fn spec_align_up(x: int, a: int) -> int
    recommends
        a >= 1,
{
    ((x + a - 1) / a) * a
}

/// Align a value upwards. `alignment` must be a power of 2.
pub fn align_address(input: u64, alignment: u64) -> (r: u64)
    requires
        is_pow2(alignment as int),
        input + alignment - 1 <= u64::MAX,
    ensures
        r == spec_align_up(input as int, alignment as int),
        r % alignment == 0,
        input <= r < input + alignment,
{
    proof {
        lemma_pow2_positive(alignment as int);
    }
    let r = (input + (alignment - 1)) & !(alignment - 1);
    proof {
        lemma_align_mask(input, alignment);
        lemma_align_up_unique(input as int, alignment as int, r as int);
    }
    r
}

/// `spec_align_up(x, a)` is the one multiple of `a` in `[x, x + a)`.
pub proof fn lemma_align_up_bounds(x: int, a: int)
    requires
        a >= 1,
    ensures
        x <= spec_align_up(x, a) < x + a,
        spec_align_up(x, a) % a == 0,
{
    let q = (x + a - 1) / a;
    vstd::arithmetic::div_mod::lemma_fundamental_div_mod(x + a - 1, a);
    vstd::arithmetic::div_mod::lemma_mod_bound(x + a - 1, a);
    assert(q * a == x + a - 1 - ((x + a - 1) % a));
    assert((q * a) % a == 0) by {
        vstd::arithmetic::div_mod::lemma_mod_multiples_basic(q, a);
    }
}

/// No other multiple of `a` lies in `[x, x + a)`.
pub proof fn lemma_align_up_unique(x: int, a: int, r: int)
    requires
        a >= 1,
        r % a == 0,
        x <= r < x + a,
    ensures
        r == spec_align_up(x, a),
{
    lemma_align_up_bounds(x, a);
    let s = spec_align_up(x, a);
    if r != s {
        assert(r == (r / a) * a) by {
            vstd::arithmetic::div_mod::lemma_fundamental_div_mod(r, a);
        }
        assert(s == (s / a) * a) by {
            vstd::arithmetic::div_mod::lemma_fundamental_div_mod(s, a);
        }
        let qr = r / a;
        let qs = s / a;
        if qr < qs {
            assert(qr * a + a <= qs * a) by (nonlinear_arith)
                requires
                    qr < qs,
                    a >= 1,
            ;
        } else {
            assert(qs * a + a <= qr * a) by (nonlinear_arith)
                requires
                    qs < qr,
                    a >= 1,
            ;
        }
    }
}

/// Aligning an already aligned value changes nothing: `spec_align_up` is
/// idempotent for every power-of-two alignment.
pub proof fn lemma_align_up_idempotent(x: int, a: int)
    requires
        is_pow2(a),
    ensures
        spec_align_up(spec_align_up(x, a), a) == spec_align_up(x, a),
{
    lemma_pow2_positive(a);
    lemma_align_up_bounds(x, a);
    let r = spec_align_up(x, a);
    lemma_align_up_unique(r, a, r);
}

/// A power of two is at least 1.
proof fn lemma_pow2_positive(a: int)
    requires
        is_pow2(a),
    ensures
        a >= 1,
{
    reveal(vstd::arithmetic::power2::is_pow2);
}

/// The masked round-up used by `align_address` lands on a multiple of the
/// alignment within one alignment of the input.
proof fn lemma_align_mask(input: u64, alignment: u64)
    requires
        is_pow2(alignment as int),
        input + alignment - 1 <= u64::MAX,
    ensures
        ((input + alignment - 1) as u64 & !((alignment - 1) as u64)) % alignment == 0,
        input <= ((input + alignment - 1) as u64 & !((alignment - 1) as u64)) < input + alignment,
{
    broadcast use vstd::arithmetic::power2::is_pow2_equiv;

    lemma_pow2_positive(alignment as int);
    let k = choose|k: nat| pow(2, k) == alignment as int;
    assert(pow2(k) == alignment as nat) by {
        assert(pow2(k) == pow(2, k));
    }
    assert(k < 64) by {
        if k >= 64 {
            vstd::arithmetic::power2::lemma2_to64();
            if k > 64 {
                vstd::arithmetic::power2::lemma_pow2_strictly_increases(64, k);
            }
            assert(pow2(k) >= 0x10000000000000000);
        }
    }
    let x = (input + alignment - 1) as u64;
    assert(x & (low_bits_mask(k) as u64) == x % (pow2(k) as u64)) by {
        vstd::bits::lemma_u64_low_bits_mask_is_mod(x, k);
    }
    let m = low_bits_mask(k) as u64;
    assert(x == (x & !m) + (x & m)) by (bit_vector);
    assert(alignment - 1 == m);
    let r = x & !((alignment - 1) as u64);
    assert(r == x - (x % alignment));
    vstd::arithmetic::div_mod::lemma_fundamental_div_mod(x as int, alignment as int);
    vstd::arithmetic::div_mod::lemma_mod_bound(x as int, alignment as int);
    assert(r == (x as int / alignment as int) * alignment as int);
    assert(r % alignment == 0) by {
        vstd::arithmetic::div_mod::lemma_mod_multiples_basic(
            x as int / alignment as int,
            alignment as int,
        );
    }
}

} // verus!
