//! The decisions of the boot path and of the main loop: which mailbox
//! tags mean what, when the virtio handshake is complete, what the
//! name-service registration frame holds, and how an inbound request is
//! answered. The loop itself — masking interrupts, waiting for events,
//! kicking mailboxes — runs outside the library and performs the actions
//! decided here.

use crate::am5728::{MailboxId, MailboxLocation, MailboxSlot, MailboxUser};
use crate::rpmsg;
use crate::rpmsg::{NameServiceAnnounce, NameServiceAnnounceFlags, Transport};
use crate::string32::spec_pad32;
use crate::vring;
use crate::vring::VringMemory;
use vstd::prelude::*;
use vstd::string::StringSliceAdditionalSpecFns;

verus! {

/// Endpoint address of the host-side peer.
pub const HOST_ID: u32 = 100;

/// Endpoint address of this firmware's service.
pub const REMOTE_ID: u32 = 61;

/// Endpoint address of the name service.
pub const NAMESERVER_ID: u32 = 53;

/// Mailbox tag telling this side the outbound ring has space again; no
/// work is required.
pub const TAG_OUTBOUND_SPACE: u32 = 0;

/// Mailbox tag telling this side the inbound ring holds a new
/// descriptor; exactly one receive is performed for it.
pub const TAG_INBOUND_MSG: u32 = 1;

/// The mailbox channel the host kicks towards this firmware.
pub fn rx_mailbox() -> (r: MailboxLocation)
    ensures
        r == (MailboxLocation {
            id: MailboxId::Mailbox5,
            user: MailboxUser::User1,
            slot: MailboxSlot::Slot6,
        }),
{
    MailboxLocation { id: MailboxId::Mailbox5, user: MailboxUser::User1, slot: MailboxSlot::Slot6 }
}

/// The mailbox channel this firmware kicks towards the host.
pub fn tx_mailbox() -> (r: MailboxLocation)
    ensures
        r == (MailboxLocation {
            id: MailboxId::Mailbox5,
            user: MailboxUser::User1,
            slot: MailboxSlot::Slot4,
        }),
{
    MailboxLocation { id: MailboxId::Mailbox5, user: MailboxUser::User1, slot: MailboxSlot::Slot4 }
}

/// What the main loop does for one popped mailbox tag.
#[derive(Debug, Clone, Copy, PartialEq, Eq, Structural)]
pub enum Action {
    /// Log that the peer is ready; nothing else.
    LogReady,
    /// Send [`rpmsg::MBOX_ECHO_REPLY`] on the outbound mailbox.
    SendEchoReply,
    /// Write the cache back over the whole address space; no reply.
    WriteBackAll,
    /// Consume exactly one frame from the inbound ring.
    ProcessInbound,
    /// The outbound ring has space; nothing to do.
    Ignore,
    /// Log the unexpected tag.
    LogUnexpected(u32),
}

/// The tag dispatch of the main loop.
pub open spec fn spec_dispatch(tag: u32) -> Action {
    if tag == rpmsg::MBOX_READY {
        Action::LogReady
    } else if tag == rpmsg::MBOX_ECHO_REQUEST {
        Action::SendEchoReply
    } else if tag == rpmsg::MBOX_FLUSH_CACHE {
        Action::WriteBackAll
    } else if tag == TAG_INBOUND_MSG {
        Action::ProcessInbound
    } else if tag == TAG_OUTBOUND_SPACE {
        Action::Ignore
    } else {
        Action::LogUnexpected(tag)
    }
}

/// Decide what one popped mailbox tag asks of the main loop: an echo
/// request is answered with an echo reply, a flush request runs a
/// write-back of the whole cache, the inbound-ring tag triggers one
/// receive, the outbound-space tag nothing, and every other tag is only
/// logged.
pub fn dispatch(tag: u32) -> (r: Action)
    returns
        spec_dispatch(tag),
{
    if tag == rpmsg::MBOX_READY {
        Action::LogReady
    } else if tag == rpmsg::MBOX_ECHO_REQUEST {
        Action::SendEchoReply
    } else if tag == rpmsg::MBOX_FLUSH_CACHE {
        Action::WriteBackAll
    } else if tag == TAG_INBOUND_MSG {
        Action::ProcessInbound
    } else if tag == TAG_OUTBOUND_SPACE {
        Action::Ignore
    } else {
        Action::LogUnexpected(tag)
    }
}

/// The status value the boot path spins for: the host has acknowledged
/// the device, bound a driver, and marked it ready.
pub const VIRTIO_STATUS_READY: u8 = 7;

/// Whether the handshake status byte says the rings may be used. The
/// boot path invalidates the cache over the device entry and re-reads
/// the byte until this holds, then sends [`rpmsg::MBOX_BOOTINIT_DONE`].
pub fn virtio_status_ready(status: u8) -> (r: bool)
    ensures
        r == (status == VIRTIO_STATUS_READY),
{
    status == VIRTIO_STATUS_READY
}

/// Fills a fixed-size byte buffer from the front.
#[derive(Debug)]
pub struct BufferWriter {
    /// The buffer being filled.
    buf: Vec<u8>,
    /// Number of bytes written so far.
    offset: usize,
}

impl BufferWriter {
    /// The bytes written so far.
    pub closed spec fn spec_written(self) -> Seq<u8> {
        self.buf@.subrange(0, self.offset as int)
    }

    /// The whole buffer, written bytes first.
    pub closed spec fn spec_buffer(self) -> Seq<u8> {
        self.buf@
    }

    /// How many bytes have been written.
    pub closed spec fn spec_offset(self) -> int {
        self.offset as int
    }

    /// The cursor lies within the buffer.
    pub open spec fn wf(self) -> bool {
        0 <= self.spec_offset() <= self.spec_buffer().len()
    }

    /// A writer over `size` zeroed bytes.
    pub fn new(size: usize) -> (r: BufferWriter)
        ensures
            r.wf(),
            r.spec_buffer() == Seq::new(size as nat, |i: int| 0u8),
            r.spec_offset() == 0,
    {
        BufferWriter { buf: vec![0u8; size], offset: 0 }
    }

    /// Append `s` at the cursor; the caller keeps the total below the
    /// buffer size.
    pub fn write_str(&mut self, s: &[u8])
        requires
            old(self).wf(),
            old(self).spec_offset() + s@.len() <= old(self).spec_buffer().len(),
        ensures
            final(self).wf(),
            final(self).spec_buffer().len() == old(self).spec_buffer().len(),
            final(self).spec_offset() == old(self).spec_offset() + s@.len(),
            final(self).spec_written() == old(self).spec_written() + s@,
            final(self).spec_buffer().skip(final(self).spec_offset()) == old(
                self,
            ).spec_buffer().skip(final(self).spec_offset()),
    {
        let start = self.offset;
        let cap = self.buf.len();
        vring::write_bytes_at(&mut self.buf, start, s);
        self.offset = start + s.len();
        proof {
            assert(self.buf@.subrange(0, self.offset as int) =~= old(self).spec_written() + s@);
            assert(self.buf@.skip(self.offset as int) =~= old(self).spec_buffer().skip(
                self.offset as int,
            ));
        }
    }

    /// Hand the buffer back.
    pub fn into_inner(self) -> (r: Vec<u8>)
        ensures
            r@ == self.spec_buffer(),
    {
        self.buf
    }
}

/// The decimal digits of `n`, most significant first, as ASCII bytes.
pub open spec fn spec_decimal(n: nat) -> Seq<u8>
    decreases n,
{
    if n < 10 {
        seq![(48 + n) as u8]
    } else {
        spec_decimal(n / 10).push((48 + n % 10) as u8)
    }
}

/// A 32-bit value has between one and ten decimal digits.
pub proof fn lemma_decimal_len(n: nat)
    requires
        n < 0x100000000,
    ensures
        1 <= spec_decimal(n).len() <= 10,
    decreases n,
{
    if n >= 10 {
        lemma_decimal_len(n / 10);
        lemma_decimal_shrinks(n);
    }
}

/// Dividing by ten strictly shortens the digit string.
proof fn lemma_decimal_shrinks(n: nat)
    requires
        10 <= n < 0x100000000,
    ensures
        spec_decimal(n / 10).len() < 10,
    decreases n,
{
    // Ten divisions by ten take any 32-bit value to zero, so the digit
    // count never passes ten.
    assert(spec_pow10(0) == 1);
    assert(spec_pow10(1) == 10);
    assert(spec_pow10(2) == 100);
    assert(spec_pow10(3) == 1000);
    assert(spec_pow10(4) == 10000);
    assert(spec_pow10(5) == 100000);
    assert(spec_pow10(6) == 1000000);
    assert(spec_pow10(7) == 10000000);
    assert(spec_pow10(8) == 100000000);
    assert(spec_pow10(9) == 1000000000);
    assert(n / 10 < 1000000000) by (nonlinear_arith)
        requires
            n < 0x100000000,
    ;
    lemma_decimal_digits_bound(n / 10, 9);
}

/// A value below 10^k has at most k digits.
proof fn lemma_decimal_digits_bound(n: nat, k: nat)
    requires
        k >= 1,
        n < spec_pow10(k),
    ensures
        spec_decimal(n).len() <= k,
    decreases k,
{
    if n >= 10 {
        assert(spec_pow10(k) == 10 * spec_pow10((k - 1) as nat));
        assert(n / 10 < spec_pow10((k - 1) as nat)) by (nonlinear_arith)
            requires
                n < 10 * spec_pow10((k - 1) as nat),
        ;
        assert(spec_pow10((k - 1) as nat) > 1) by {
            lemma_pow10_pos((k - 1) as nat);
        }
        lemma_decimal_digits_bound(n / 10, (k - 1) as nat);
    }
}

/// 10^k.
pub open spec fn spec_pow10(k: nat) -> nat
    decreases k,
{
    if k == 0 {
        1
    } else {
        10 * spec_pow10((k - 1) as nat)
    }
}

/// 10^k is at least 1, and at least 10 for k at least 1.
proof fn lemma_pow10_pos(k: nat)
    ensures
        spec_pow10(k) >= 1,
        k >= 1 ==> spec_pow10(k) >= 10,
    decreases k,
{
    if k >= 1 {
        lemma_pow10_pos((k - 1) as nat);
    }
}

/// The decimal digits of `n`, most significant first.
pub fn dec_digits(n: u32) -> (r: Vec<u8>)
    ensures
        r@ == spec_decimal(n as nat),
    decreases n,
{
    if n < 10 {
        let mut r: Vec<u8> = Vec::new();
        r.push(48 + n as u8);
        proof {
            assert(r@ =~= spec_decimal(n as nat));
        }
        r
    } else {
        let mut r = dec_digits(n / 10);
        r.push(48 + (n % 10) as u8);
        proof {
            assert(r@ =~= spec_decimal(n as nat));
        }
        r
    }
}

/// The text of the reply to inbound message number `n`.
pub open spec fn spec_response_text(n: u32) -> Seq<u8> {
    "Response to message ".spec_bytes() + spec_decimal(n as nat)
}

/// The fixed-size reply body: the text, NUL-padded to 64 bytes as the
/// whole reply buffer is sent.
pub open spec fn spec_response_body(n: u32) -> Seq<u8> {
    spec_response_text(n) + Seq::new((64 - spec_response_text(n).len()) as nat, |i: int| 0u8)
}

/// Build the 64-byte reply body for inbound message number `loops`.
pub fn response_message(loops: u32) -> (r: Vec<u8>)
    ensures
        r@ == spec_response_body(loops),
        r@.len() == 64,
{
    let prefix = "Response to message ";
    proof {
        reveal_strlit("Response to message ");
        assert(vstd::utf8::is_ascii_chars(prefix@));
        vstd::utf8::is_ascii_chars_encode_utf8(prefix@);
        assert(prefix.spec_bytes().len() == 20);
        lemma_decimal_len(loops as nat);
    }
    let prefix_bytes = prefix.as_bytes();
    let digits = dec_digits(loops);
    let mut writer = BufferWriter::new(64);
    let ghost b0 = writer.spec_buffer();
    writer.write_str(prefix_bytes);
    let ghost b1 = writer.spec_buffer();
    writer.write_str(digits.as_slice());
    let ghost b2 = writer.spec_buffer();
    let ghost o2 = writer.spec_offset();
    let r = writer.into_inner();
    proof {
        assert(writer.spec_written() =~= spec_response_text(loops));
        assert forall|i: int| o2 <= i < 64 implies b2[i] == 0u8 by {
            assert(b2.skip(o2)[i - o2] == b1.skip(o2)[i - o2]);
            assert(b1.skip(20)[i - 20] == b0.skip(20)[i - 20]);
            assert(b0[i] == 0u8);
        }
        assert(r@ =~= spec_response_body(loops));
    }
    r
}

/// Publish this firmware's endpoint: one frame to the name service
/// announcing service "rpmsg-proto" at address [`REMOTE_ID`]. After the
/// frame is on the outbound ring the caller kicks [`TAG_OUTBOUND_SPACE`]
/// on the outbound mailbox to make the host look.
pub fn register_proto(transport: &mut Transport, tx_mem: &mut VringMemory) -> (r: Result<
    (),
    rpmsg::Error,
>)
    requires
        old(tx_mem).wf(),
        old(transport).send_channel.wf_for(*old(tx_mem)),
    ensures
        final(tx_mem).wf(),
        final(transport).send_channel.wf_for(*final(tx_mem)),
        final(transport).receive_channel == old(transport).receive_channel,
        ({
            let tx = old(transport).send_channel;
            let has_work = tx.spec_has_work(*old(tx_mem));
            let d = tx.spec_next_descriptor(*old(tx_mem));
            let in_range = d < old(tx_mem).entry_count();
            let frame = Transport::spec_frame(REMOTE_ID, NAMESERVER_ID, spec_announce_body());
            let fits = in_range && frame.len() <= old(tx_mem).descriptors.ring@[d].len as int;
            &&& has_work && in_range && fits ==> {
                &&& r is Ok
                &&& final(tx_mem).buffers@[d]@ == frame + old(tx_mem).buffers@[d]@.skip(
                    frame.len() as int,
                )
                &&& final(tx_mem).used.idx == vstd::wrapping::u16_specs::wrapping_add(
                    old(tx_mem).used.idx,
                    1,
                )
            }
            &&& !has_work ==> r == Err::<(), rpmsg::Error>(rpmsg::Error::Empty) && *final(tx_mem)
                == *old(tx_mem) && *final(transport) == *old(transport)
        }),
{
    let msg = NameServiceAnnounce::new(
        "rpmsg-proto",
        "rpmsg-proto",
        REMOTE_ID,
        NameServiceAnnounceFlags::Create,
    );
    let body = msg.to_bytes();
    proof {
        assert(body@ == spec_announce_body());
    }
    transport.send(tx_mem, REMOTE_ID, NAMESERVER_ID, body.as_slice())
}

/// The 72 announcement bytes that `register_proto` sends: both name and
/// description hold "rpmsg-proto" NUL-padded, the address is
/// [`REMOTE_ID`], and the flag value announces creation.
pub open spec fn spec_announce_body() -> Seq<u8> {
    spec_pad32("rpmsg-proto".spec_bytes()) + spec_pad32("rpmsg-proto".spec_bytes())
        + rpmsg::spec_u32_le(REMOTE_ID) + rpmsg::spec_u32_le(0)
}

/// Answer one inbound frame: consume it from the inbound ring and place
/// a reply frame from [`REMOTE_ID`] to [`HOST_ID`] on the outbound ring,
/// whose 64-byte body is the response text for iteration `loops`. The
/// caller then kicks [`TAG_OUTBOUND_SPACE`] towards the host.
///
/// The host is expected to keep the outbound ring primed; the caller
/// must not call this without an outbound buffer of at least 80 bytes
/// waiting, since a request that cannot be answered is fatal to the
/// exchange.
pub fn handle_inbound(
    transport: &mut Transport,
    rx_mem: &mut VringMemory,
    tx_mem: &mut VringMemory,
    loops: u32,
) -> (r: Result<(), rpmsg::Error>)
    requires
        old(rx_mem).wf(),
        old(tx_mem).wf(),
        old(transport).receive_channel.wf_for(*old(rx_mem)),
        old(transport).send_channel.wf_for(*old(tx_mem)),
        old(transport).send_channel.spec_has_work(*old(tx_mem)),
        old(transport).send_channel.spec_next_descriptor(*old(tx_mem)) < old(
            tx_mem,
        ).entry_count(),
        old(tx_mem).descriptors.ring@[old(transport).send_channel.spec_next_descriptor(
            *old(tx_mem),
        )].len >= 80,
    ensures
        final(rx_mem).wf(),
        final(tx_mem).wf(),
        final(transport).receive_channel.wf_for(*final(rx_mem)),
        final(transport).send_channel.wf_for(*final(tx_mem)),
        ({
            let rx = old(transport).receive_channel;
            let has_work = rx.spec_has_work(*old(rx_mem));
            let d = rx.spec_next_descriptor(*old(rx_mem));
            let in_range = d < old(rx_mem).entry_count();
            let valid = in_range && old(transport).spec_inbound_valid(*old(rx_mem));
            &&& !has_work ==> r == Err::<(), rpmsg::Error>(rpmsg::Error::Empty) && *final(rx_mem)
                == *old(rx_mem) && *final(tx_mem) == *old(tx_mem)
            &&& has_work && !valid ==> r == Err::<(), rpmsg::Error>(
                rpmsg::Error::Vring(vring::Error::InternalError),
            ) && *final(rx_mem) == *old(rx_mem) && *final(tx_mem) == *old(tx_mem)
            &&& has_work && valid ==> ({
                let td = old(transport).send_channel.spec_next_descriptor(*old(tx_mem));
                let reply = Transport::spec_frame(REMOTE_ID, HOST_ID, spec_response_body(loops));
                &&& r is Ok
                &&& final(rx_mem).used.idx == vstd::wrapping::u16_specs::wrapping_add(
                    old(rx_mem).used.idx,
                    1,
                )
                &&& final(tx_mem).used.idx == vstd::wrapping::u16_specs::wrapping_add(
                    old(tx_mem).used.idx,
                    1,
                )
                &&& final(tx_mem).buffers@[td]@ == reply + old(tx_mem).buffers@[td]@.skip(
                    reply.len() as int,
                )
            })
        }),
{
    let received = transport.receive(rx_mem);
    match received {
        Ok((_header, _payload)) => {
            let buffer = response_message(loops);
            let sent = transport.send(tx_mem, REMOTE_ID, HOST_ID, buffer.as_slice());
            proof {
                assert(sent is Ok);
            }
            sent
        },
        Err(e) => Err(e),
    }
}

} // verus!
