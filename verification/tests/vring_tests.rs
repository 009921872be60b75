//! Tests of the split-ring transport: alignment, flags, and the
//! host/guest descriptor exchange over one shared ring memory.

use ipu_demo::vring::{
    align_address, ring_addresses, AvailableFlag, AvailableFlags, DescriptorFlag,
    DescriptorFlags, Error, GuestVring, HostVring, UsedFlag, UsedFlags, VringMemory,
};

#[test]
fn test_align() {
    for bits in 2..30 {
        let a: u64 = 1 << bits;
        assert_eq!(align_address(0, a), 0);
        assert_eq!(align_address(1, a), a);
        assert_eq!(align_address(a - 1, a), a);
        assert_eq!(align_address(a, a), a);
        assert_eq!(align_address(a + 1, a), a * 2);
    }
}

#[test]
fn test_flags() {
    let flags = DescriptorFlags(3);
    assert_eq!(flags.is_set(DescriptorFlag::Next), true);
    assert_eq!(flags.is_set(DescriptorFlag::Write), true);
    assert_eq!(flags.is_set(DescriptorFlag::Indirect), false);

    let flags = DescriptorFlags(5);
    assert_eq!(flags.is_set(DescriptorFlag::Next), true);
    assert_eq!(flags.is_set(DescriptorFlag::Write), false);
    assert_eq!(flags.is_set(DescriptorFlag::Indirect), true);

    let mut flags = UsedFlags(0);
    assert_eq!(flags.is_set(UsedFlag::NoNotify), false);
    flags.set(UsedFlag::NoNotify);
    assert_eq!(flags.is_set(UsedFlag::NoNotify), true);
    flags.clear(UsedFlag::NoNotify);
    assert_eq!(flags.is_set(UsedFlag::NoNotify), false);

    let mut flags = AvailableFlags(0);
    assert_eq!(flags.is_set(AvailableFlag::NoInterrupt), false);
    flags.set(AvailableFlag::NoInterrupt);
    assert_eq!(flags.is_set(AvailableFlag::NoInterrupt), true);
    flags.clear(AvailableFlag::NoInterrupt);
    assert_eq!(flags.is_set(AvailableFlag::NoInterrupt), false);
}

#[test]
fn align_idempotent() {
    for bits in 0..30 {
        let a: u64 = 1 << bits;
        for x in [0u64, 1, 7, 4095, 4096, 4097, 0x60001206, u32::MAX as u64] {
            let once = align_address(x, a);
            assert_eq!(align_address(once, a), once);
        }
    }
}

#[test]
fn ring_layout() {
    // The layout of a 256-entry ring at its boot address: descriptors
    // at the base, the available ring 16 bytes per entry later, the
    // used ring at the next 4096-aligned address after the available
    // ring's 6 + 2 bytes per entry.
    let (descriptors, available, used) = ring_addresses(0x60000000, 256, 4096);
    assert_eq!(descriptors, 0x60000000);
    assert_eq!(available, 0x60001000);
    assert_eq!(used, 0x60002000);

    let (descriptors, available, used) = ring_addresses(0, 8, 4);
    assert_eq!(descriptors, 0);
    assert_eq!(available, 128);
    assert_eq!(used, 152);
}

#[test]
fn get_descriptors() {
    let mut mem = VringMemory::new(8, 16);
    let mut hq = HostVring::new(8);

    for i in 0..8u8 {
        // The host writes three bytes into each buffer and offers it
        // with the write flag cleared: the host, not the device, wrote
        // it.
        hq.give_to_guest(&mut mem, &[i, i + 1, i + 2], 3, DescriptorFlags(0))
            .unwrap();
    }

    // We should now be out of memory.
    assert!(hq.give_to_guest(&mut mem, &[], 0, DescriptorFlags(0)).is_err());

    // Now pretend we are the guest, processing these packets.
    let mut vq = GuestVring::new(8);
    for i in 0..8u8 {
        let consumed = vq.process(&mut mem).unwrap();
        assert!(consumed.descriptor.flags.is_clear(DescriptorFlag::Write));
        assert!(consumed.descriptor.flags.is_clear(DescriptorFlag::Next));
        assert_eq!(consumed.bytes.len(), 3);
        assert_eq!(consumed.bytes[0], i);
        assert_eq!(consumed.bytes[1], i + 1);
        assert_eq!(consumed.bytes[2], i + 2);
    }

    // The host recovers all eight buffers from the used ring.
    for i in 0..8u32 {
        let entry = hq.take_from_guest(&mut mem).unwrap();
        assert_eq!(entry.idx, i);
        assert_eq!(entry.len, 3);
    }
    assert!(matches!(hq.take_from_guest(&mut mem), Err(Error::NoData)));
}

#[test]
fn transmit_size_bound() {
    // A ring whose single buffer holds 8 bytes.
    let mut mem = VringMemory::new(1, 8);
    let mut hq = HostVring::new(1);
    hq.give_to_guest(&mut mem, &[], 8, DescriptorFlags(2)).unwrap();

    let avail_before = mem.available.idx;
    let used_before = mem.used.idx;

    // Nine bytes do not fit into the eight-byte buffer.
    let mut vq = GuestVring::new(1);
    let r = vq.transmit(&mut mem, &[1, 2, 3, 4, 5], &[6, 7, 8, 9]);
    assert!(matches!(r, Err(Error::PayloadTooLarge)));
    assert_eq!(mem.available.idx, avail_before);
    assert_eq!(mem.used.idx, used_before);

    // Eight bytes fit exactly.
    let r = vq.transmit(&mut mem, &[1, 2, 3, 4, 5], &[6, 7, 8]);
    assert!(r.is_ok());
    assert_eq!(mem.used.idx, used_before.wrapping_add(1));
    assert_eq!(mem.buffers[0], vec![1, 2, 3, 4, 5, 6, 7, 8]);
}

#[test]
fn transmit_no_buffer() {
    let mut mem = VringMemory::new(2, 64);
    let mut vq = GuestVring::new(2);
    assert!(matches!(
        vq.transmit(&mut mem, &[1], &[2]),
        Err(Error::NoData)
    ));
    assert!(matches!(vq.process(&mut mem), Err(Error::NoData)));
}

#[test]
fn descriptor_index_out_of_range() {
    // A published descriptor index beyond the table is an invariant
    // violation: the operation fails and consumes nothing.
    let mut mem = VringMemory::new(2, 8);
    mem.available.ring[0].idx = 9;
    mem.available.idx = 1;

    let mut vq = GuestVring::new(2);
    assert!(matches!(vq.process(&mut mem), Err(Error::InternalError)));
    assert!(matches!(
        vq.transmit(&mut mem, &[1], &[]),
        Err(Error::InternalError)
    ));
    assert_eq!(mem.used.idx, 0);

    // The same at the host: a used entry naming a descriptor out of
    // range is refused.
    let mut mem = VringMemory::new(2, 8);
    mem.used.ring[0].idx = 7;
    mem.used.idx = 1;
    let mut hq = HostVring::new(2);
    assert!(matches!(hq.take_from_guest(&mut mem), Err(Error::InternalError)));
}

#[test]
fn slot_wrapping_identity() {
    // A three-slot ring: counters keep running past the ring size and
    // past the 16-bit wrap, and each descriptor index published at slot
    // k % 3 is the index read back.
    let mut mem = VringMemory::new(3, 4);
    let mut hq = HostVring::new(3);
    let mut vq = GuestVring::new(3);

    for round in 0..10u8 {
        hq.give_to_guest(&mut mem, &[round], 1, DescriptorFlags(0))
            .unwrap();
        let consumed = vq.process(&mut mem).unwrap();
        assert_eq!(consumed.bytes, vec![round]);
        let entry = hq.take_from_guest(&mut mem).unwrap();
        assert_eq!(entry.len, 1);
    }
    assert_eq!(mem.available.idx, 10);
    assert_eq!(mem.used.idx, 10);
}

#[test]
fn counters_advance_by_one() {
    let mut mem = VringMemory::new(2, 8);
    let mut hq = HostVring::new(2);
    assert_eq!(mem.available.idx, 0);
    hq.give_to_guest(&mut mem, &[7], 1, DescriptorFlags(0)).unwrap();
    assert_eq!(mem.available.idx, 1);
    hq.give_to_guest(&mut mem, &[8], 1, DescriptorFlags(0)).unwrap();
    assert_eq!(mem.available.idx, 2);

    let mut vq = GuestVring::new(2);
    assert_eq!(mem.used.idx, 0);
    vq.process(&mut mem).unwrap();
    assert_eq!(mem.used.idx, 1);
    vq.process(&mut mem).unwrap();
    assert_eq!(mem.used.idx, 2);
}
