//! Tests of the main-loop decisions, the notification queue, the trace
//! buffer, the resource table and the chip computations.

use ipu_demo::am5728::{
    crossbar_config, flush_all_command, flush_range_command, irq_route_get_higher,
    irq_route_get_lower, irq_route_set_higher, irq_route_set_lower, mailbox_base_pa,
    unicache_mmu_setup, AmmuPageSize, CacheFlushAllMode, CacheFlushMode, Interrupt,
    InterruptPriority, MailboxId, MailboxSlot,
};
use ipu_demo::board::ResourceTable;
use ipu_demo::fifo::Fifo;
use ipu_demo::firmware::{dispatch, response_message, rx_mailbox, tx_mailbox, Action};
use ipu_demo::resource_table::{AddressMapper, ResourceType};
use ipu_demo::rpmsg::{
    MBOX_ECHO_REPLY, MBOX_ECHO_REQUEST, MBOX_FLUSH_CACHE, MBOX_READY,
};
use ipu_demo::trace::Trace;

#[test]
fn echo() {
    // Tag 0xFFFFFF03 is answered with tag 0xFFFFFF04 within the same
    // loop iteration; no ring traffic is required.
    assert_eq!(dispatch(0xFFFFFF03), Action::SendEchoReply);
    assert_eq!(MBOX_ECHO_REQUEST, 0xFFFFFF03);
    assert_eq!(MBOX_ECHO_REPLY, 0xFFFFFF04);
}

#[test]
fn cache_flush_on_request() {
    // Tag 0xFFFFFF06 runs a write-back over the full address space and
    // produces no reply.
    assert_eq!(dispatch(0xFFFFFF06), Action::WriteBackAll);
    assert_eq!(MBOX_FLUSH_CACHE, 0xFFFFFF06);
    let (start, end, bits) = flush_all_command(CacheFlushAllMode::WriteBack);
    assert_eq!(start, 0);
    assert_eq!(end, 0xFFFFFFFF);
    assert_eq!(bits, 1 << 3);
}

#[test]
fn dispatch_covers_all_tags() {
    assert_eq!(dispatch(MBOX_READY), Action::LogReady);
    assert_eq!(dispatch(0), Action::Ignore);
    assert_eq!(dispatch(1), Action::ProcessInbound);
    assert_eq!(dispatch(0xFFFFFF0A), Action::LogUnexpected(0xFFFFFF0A));
    assert_eq!(dispatch(2), Action::LogUnexpected(2));
}

#[test]
fn fifo_order() {
    let mut fifo = Fifo::new();
    assert_eq!(fifo.pop(), None);
    for v in [10u32, 20, 30, 40, 50] {
        fifo.push(v);
    }
    for v in [10u32, 20, 30, 40, 50] {
        assert_eq!(fifo.pop(), Some(v));
    }
    assert_eq!(fifo.pop(), None);
}

#[test]
fn fifo_overflow_drops_earliest() {
    let mut fifo = Fifo::new();
    for v in 1..=70u32 {
        fifo.push(v);
    }
    // The first six values were dropped silently; the latest 64 pop in
    // order.
    for v in 7..=70u32 {
        assert_eq!(fifo.pop(), Some(v));
    }
    assert_eq!(fifo.pop(), None);
}

#[test]
fn fifo_overflow_under_storm() {
    // The host kicks 128 echo requests in rapid succession while the
    // foreground is busy; between 64 and 128 replies come out, the
    // excess is dropped silently, and nothing else is produced.
    let mut fifo = Fifo::new();
    for _ in 0..128 {
        fifo.push(MBOX_ECHO_REQUEST);
    }
    let mut replies = 0;
    let mut other = 0;
    while let Some(tag) = fifo.pop() {
        match dispatch(tag) {
            Action::SendEchoReply => replies += 1,
            _ => other += 1,
        }
    }
    assert!(replies >= 64 && replies <= 128);
    assert_eq!(other, 0);
}

#[test]
fn response_text() {
    let body = response_message(42);
    assert_eq!(body.len(), 64);
    assert!(body.starts_with(b"Response to message 42"));
    assert!(body[22..].iter().all(|&b| b == 0));

    let body = response_message(0);
    assert!(body.starts_with(b"Response to message 0\0"));

    let body = response_message(4294967295);
    assert!(body.starts_with(b"Response to message 4294967295\0"));
}

#[test]
fn trace_write_and_wrap() {
    let mut t = Trace::new(vec![0u8; 16384]);
    t.write_str(b"Setup complete.").unwrap();
    assert_eq!(&t.buffer()[0..15], b"Setup complete.");
    assert_eq!(t.buffer()[15], 0);
    assert_eq!(t.cursor(), 15);

    t.write_str(b" Booting.").unwrap();
    assert_eq!(&t.buffer()[0..24], b"Setup complete. Booting.");
    assert_eq!(t.buffer()[24], 0);

    // A message longer than the whole buffer is rejected.
    assert!(t.write_str(&[65u8; 16384]).is_err());
    assert_eq!(t.cursor(), 24);

    // A message that no longer fits in the remaining space wraps to
    // offset zero.
    t.write_str(&[66u8; 16380]).unwrap();
    assert_eq!(t.cursor(), 16380);
    assert_eq!(t.buffer()[0], 66);
    assert_eq!(t.buffer()[16380], 0);
}

#[test]
fn trace_steal_recovers_cursor() {
    let mut buffer = vec![65u8; 16384];
    buffer[100] = 0;
    let t = Trace::steal(buffer);
    assert_eq!(t.cursor(), 100);

    // Without any NUL the cursor restarts at zero.
    let t = Trace::steal(vec![65u8; 16384]);
    assert_eq!(t.cursor(), 0);
}

#[test]
fn address_map_round_trip() {
    let table = ResourceTable::new();
    // Every mapped region translates there and back across its whole
    // range; the devmem windows are distinct, so the round trip returns
    // the original address.
    let pa = 0x4A00_27E0usize;
    let da = table.pa_to_da(pa).unwrap();
    assert_eq!(da, 0x6A00_27E0);
    assert_eq!(table.da_to_pa(da), Some(pa));

    // Mailbox 5 lives in the L4PER3 window.
    let mb = mailbox_base_pa(MailboxId::Mailbox5);
    let mb_da = table.pa_to_da(mb).unwrap();
    assert_eq!(mb_da, 0x6884_0000);
    assert_eq!(table.da_to_pa(mb_da), Some(mb));

    // Unmapped addresses translate to nothing.
    assert_eq!(table.pa_to_da(0x0100_0000), None);
    assert_eq!(table.da_to_pa(0xF000_0000), None);

    // The descriptor-address translator gives the same mapping.
    assert_eq!(ipu_demo::board::address_map(&table, 0x4A00_27E0), 0x6A00_27E0);
}

#[test]
fn resource_table_shape() {
    let table = ResourceTable::new();
    assert_eq!(table.base.ver, 1);
    assert_eq!(table.base.num, 21);
    assert_eq!(table.rpmsg_vdev.id, 7);
    assert_eq!(table.rpmsg_vdev.status, 0);
    assert_eq!(table.rpmsg_vdev.num_of_vrings, 2);
    assert_eq!(table.rpmsg_vring0.da, 0x60000000);
    assert_eq!(table.rpmsg_vring0.num, 256);
    assert_eq!(table.rpmsg_vring0.align, 4096);
    assert_eq!(table.rpmsg_vring1.da, 0x60004000);
    assert_eq!(table.trace.da, 0x9F000000);
    assert_eq!(table.trace.len, 16384);
    assert_eq!(table.trace.rtype.tag(), 2);
    assert_eq!(ResourceType::CARVEOUT.tag(), 0);
    assert_eq!(ResourceType::DEVMEM.tag(), 1);
    assert_eq!(ResourceType::VDEV.tag(), 3);
    assert_eq!(table.text_cout.name.as_bytes()[0..12], *b"IPU_MEM_TEXT");

    // The offset array walks the entries: 16-byte header plus 21
    // four-byte offsets first, then the vdev block and the fixed-size
    // entries behind it.
    assert_eq!(table.offsets[0], 100);
    assert_eq!(table.offsets[1], 168);
    assert_eq!(table.offsets[20], 1224);
}

#[test]
fn chip_computations() {
    assert_eq!(Interrupt::Ipu1Irq44.nr(), 28);
    assert_eq!(Interrupt::Ipu1Irq16.nr(), 0);
    assert_eq!(Interrupt::Ipu1Irq79.nr(), 63);
    assert_eq!(InterruptPriority::Prio01.bits(), 16);
    assert_eq!(InterruptPriority::Prio15.bits(), 240);

    assert_eq!(MailboxSlot::Slot6.get_data_bit(), 1 << 12);
    assert_eq!(MailboxSlot::Slot6.get_space_bit(), 1 << 14);
    assert_eq!(MailboxSlot::Slot0.get_data_bit(), 1);

    assert_eq!(mailbox_base_pa(MailboxId::Mailbox1), 0x4A0F_4000);
    assert_eq!(mailbox_base_pa(MailboxId::Mailbox13), 0x4880_2000);

    let rx = rx_mailbox();
    let tx = tx_mailbox();
    assert_eq!(rx.id, MailboxId::Mailbox5);
    assert_eq!(rx.slot, MailboxSlot::Slot6);
    assert_eq!(tx.slot, MailboxSlot::Slot4);

    let (start, end, bits) = flush_range_command(0x9F000000, 16384, CacheFlushMode::Invalidate);
    assert_eq!(start, 0x9F000000);
    assert_eq!(end, 0x9F003FFF);
    assert_eq!(bits, 1 << 4);

    let routes = crossbar_config();
    assert_eq!(routes.len(), 29);
    assert_eq!(routes[10], (0, 250));
    assert!(routes.iter().enumerate().all(|(i, &r)| i == 10 || r == (0, 0)));
    let field = irq_route_set_higher(irq_route_set_lower(0xAAAA_BBBB, 0), 250);
    assert_eq!(irq_route_get_lower(field), 0);
    assert_eq!(irq_route_get_higher(field), 250);

    let pages = unicache_mmu_setup();
    assert_eq!(pages.len(), 9);
    assert_eq!(pages[0].size, AmmuPageSize::Large);
    assert_eq!(pages[0].addr, 0);
    assert!(pages[0].policy & (1 << 16) != 0);
    // The peripheral window is mapped non-cacheable.
    assert_eq!(pages[1].addr, 0x60000000);
    assert!(pages[1].policy & (1 << 16) == 0);
    assert_eq!(pages[4].size, AmmuPageSize::Small);
    assert_eq!(pages[4].translated, 0x55080000);
    assert_eq!(pages[8].addr, 0x2000C000);
}
