//! Remote-processor message framing over a pair of vrings.
//!
//! A frame is a 16-byte little-endian header followed by `length` body
//! bytes. The outbound ring carries frames this processor sends; the
//! inbound ring carries frames the host sends. Destination 53 (0x35) is
//! the name service, on which endpoints are announced.

use crate::string32::{spec_pad32, String32};
use crate::vring;
use crate::vring::{
    slot, DescriptorEntry, DescriptorFlags, GuestVring, UsedEntry, VringMemory,
};
use vstd::prelude::*;
use vstd::string::StringSliceAdditionalSpecFns;
use vstd::wrapping::u16_specs;

verus! {

/// Mailbox tag: the peer is up.
pub const MBOX_READY: u32 = 0xFFFFFF00;

/// Mailbox tag: a message is pending.
pub const MBOX_PENDING_MSG: u32 = 0xFFFFFF01;

/// Mailbox tag: the peer crashed.
pub const MBOX_CRASH: u32 = 0xFFFFFF02;

/// Mailbox tag: please reply with [`MBOX_ECHO_REPLY`].
pub const MBOX_ECHO_REQUEST: u32 = 0xFFFFFF03;

/// Mailbox tag: answer to an [`MBOX_ECHO_REQUEST`].
pub const MBOX_ECHO_REPLY: u32 = 0xFFFFFF04;

/// Mailbox tag: abort requested.
pub const MBOX_ABORT_REQUEST: u32 = 0xFFFFFF05;

/// Mailbox tag: write the cache back over the whole address space.
pub const MBOX_FLUSH_CACHE: u32 = 0xFFFFFF06;

/// Mailbox tag: boot-time initialisation is complete.
pub const MBOX_BOOTINIT_DONE: u32 = 0xFFFFFF07;

/// Mailbox tag: enter hibernation.
pub const MBOX_HIBERNATION: u32 = 0xFFFFFF10;

/// Mailbox tag: enter hibernation unconditionally.
pub const MBOX_HIBERNATION_FORCE: u32 = 0xFFFFFF11;

/// Mailbox tag: hibernation acknowledged.
pub const MBOX_HIBERNATION_ACK: u32 = 0xFFFFFF12;

/// Mailbox tag: hibernation cancelled.
pub const MBOX_HIBERNATION_CANCEL: u32 = 0xFFFFFF13;

/// All remote-processor messages start with this 16-byte header.
#[derive(Debug, Clone, Copy, PartialEq, Eq, Structural)]
pub struct Header {
    /// Address of the sending endpoint.
    pub source: u32,
    /// Address of the receiving endpoint.
    pub destination: u32,
    /// Must be zero on transmit; receivers ignore it.
    pub reserved: u32,
    /// Number of body bytes following the header.
    pub length: u16,
    /// Reserved flag bits; no bit is assigned a meaning.
    pub flags: u16,
}

impl Header {
    /// Builds a header for a body of `length` bytes, which must be less
    /// than 65536.
    pub fn new(source: u32, destination: u32, length: usize) -> (r: Header)
        requires
            length < 65536,
        ensures
            r == (Header {
                source,
                destination,
                reserved: 0u32,
                length: length as u16,
                flags: 0u16,
            }),
    {
        Header { source, destination, reserved: 0, length: length as u16, flags: 0 }
    }
}

/// The two bytes of `x` in little-endian order.
pub open spec fn spec_u16_le(x: u16) -> Seq<u8> {
    seq![(x & 0xff) as u8, ((x >> 8) & 0xff) as u8]
}

/// The four bytes of `x` in little-endian order.
pub open spec fn spec_u32_le(x: u32) -> Seq<u8> {
    seq![
        (x & 0xff) as u8,
        ((x >> 8) & 0xff) as u8,
        ((x >> 16) & 0xff) as u8,
        ((x >> 24) & 0xff) as u8,
    ]
}

/// The value whose little-endian bytes are `b0, b1`.
pub open spec fn spec_u16_from_le(b0: u8, b1: u8) -> u16 {
    (b0 as u16) | ((b1 as u16) << 8)
}

/// The value whose little-endian bytes are `b0, b1, b2, b3`.
pub open spec fn spec_u32_from_le(b0: u8, b1: u8, b2: u8, b3: u8) -> u32 {
    (b0 as u32) | ((b1 as u32) << 8) | ((b2 as u32) << 16) | ((b3 as u32) << 24)
}

/// The 16 bytes of a header on the wire.
pub open spec fn spec_header_bytes(h: Header) -> Seq<u8> {
    spec_u32_le(h.source) + spec_u32_le(h.destination) + spec_u32_le(h.reserved) + spec_u16_le(
        h.length,
    ) + spec_u16_le(h.flags)
}

/// The header encoded in the first 16 bytes of a frame.
pub open spec fn spec_parse_header(b: Seq<u8>) -> Header
    recommends
        b.len() >= 16,
{
    Header {
        source: spec_u32_from_le(b[0], b[1], b[2], b[3]),
        destination: spec_u32_from_le(b[4], b[5], b[6], b[7]),
        reserved: spec_u32_from_le(b[8], b[9], b[10], b[11]),
        length: spec_u16_from_le(b[12], b[13]),
        flags: spec_u16_from_le(b[14], b[15]),
    }
}

/// Decoding the little-endian bytes of a 16-bit value gives it back.
proof fn lemma_u16_le_round_trip(x: u16)
    by (bit_vector)
    ensures
        ((x & 0xff) as u8 as u16) | (((x >> 8) & 0xff) as u8 as u16) << 8 == x,
{
}

/// Decoding the little-endian bytes of a 32-bit value gives it back.
proof fn lemma_u32_le_round_trip(x: u32)
    by (bit_vector)
    ensures
        ((x & 0xff) as u8 as u32) | (((x >> 8) & 0xff) as u8 as u32) << 8 | (((x >> 16)
            & 0xff) as u8 as u32) << 16 | (((x >> 24) & 0xff) as u8 as u32) << 24 == x,
{
}

/// Framing round-trip: for any source, destination and body of fewer than
/// 65536 bytes, parsing the frame built from them recovers the same
/// header, and the body bytes sit unchanged behind the header.
pub proof fn lemma_frame_round_trip(source: u32, destination: u32, body: Seq<u8>)
    ensures
        ({
            let h = Header {
                source,
                destination,
                reserved: 0u32,
                length: body.len() as u16,
                flags: 0u16,
            };
            let frame = spec_header_bytes(h) + body;
            &&& spec_parse_header(frame) == h
            &&& frame.subrange(16, 16 + body.len() as int) == body
        }),
{
    let h = Header {
        source,
        destination,
        reserved: 0u32,
        length: body.len() as u16,
        flags: 0u16,
    };
    let frame = spec_header_bytes(h) + body;
    lemma_u32_le_round_trip(h.source);
    lemma_u32_le_round_trip(h.destination);
    lemma_u32_le_round_trip(h.reserved);
    lemma_u16_le_round_trip(h.length);
    lemma_u16_le_round_trip(h.flags);
    assert(spec_parse_header(frame) == h);
    assert(frame.subrange(16, 16 + body.len() as int) =~= body);
}

/// Append the little-endian bytes of `x`.
fn push_u16_le(v: &mut Vec<u8>, x: u16)
    ensures
        final(v)@ == old(v)@ + spec_u16_le(x),
{
    v.push((x & 0xff) as u8);
    v.push(((x >> 8) & 0xff) as u8);
    proof {
        assert(v@ =~= old(v)@ + spec_u16_le(x));
    }
}

/// Append the little-endian bytes of `x`.
fn push_u32_le(v: &mut Vec<u8>, x: u32)
    ensures
        final(v)@ == old(v)@ + spec_u32_le(x),
{
    v.push((x & 0xff) as u8);
    v.push(((x >> 8) & 0xff) as u8);
    v.push(((x >> 16) & 0xff) as u8);
    v.push(((x >> 24) & 0xff) as u8);
    proof {
        assert(v@ =~= old(v)@ + spec_u32_le(x));
    }
}

/// Serialise a header into its 16 wire bytes.
pub fn header_to_bytes(h: &Header) -> (r: Vec<u8>)
    ensures
        r@ == spec_header_bytes(*h),
        r@.len() == 16,
{
    let mut r: Vec<u8> = Vec::new();
    push_u32_le(&mut r, h.source);
    push_u32_le(&mut r, h.destination);
    push_u32_le(&mut r, h.reserved);
    push_u16_le(&mut r, h.length);
    push_u16_le(&mut r, h.flags);
    proof {
        assert(r@ =~= spec_header_bytes(*h));
    }
    r
}

/// Read back a header from the first 16 bytes of a frame.
pub fn header_from_bytes(b: &[u8]) -> (r: Header)
    requires
        b@.len() >= 16,
    ensures
        r == spec_parse_header(b@),
{
    Header {
        source: (b[0] as u32) | ((b[1] as u32) << 8) | ((b[2] as u32) << 16) | (
        (b[3] as u32) << 24),
        destination: (b[4] as u32) | ((b[5] as u32) << 8) | ((b[6] as u32) << 16) | (
        (b[7] as u32) << 24),
        reserved: (b[8] as u32) | ((b[9] as u32) << 8) | ((b[10] as u32) << 16) | (
        (b[11] as u32) << 24),
        length: (b[12] as u16) | ((b[13] as u16) << 8),
        flags: (b[14] as u16) | ((b[15] as u16) << 8),
    }
}

/// Errors of the framing layer.
#[derive(Debug, Clone, Copy, PartialEq, Eq, Structural)]
pub enum Error {
    /// The inbound ring held no new frame.
    Empty,
    /// A ring operation failed.
    Vring(vring::Error),
}

impl From<vring::Error> for Error {
    /// `NoData` becomes the quiet [`Error::Empty`]; every other ring error
    /// is carried as is.
    fn from(e: vring::Error) -> (r: Error) {
        match e {
            vring::Error::NoData => Error::Empty,
            _ => Error::Vring(e),
        }
    }
}

impl vstd::std_specs::convert::FromSpecImpl<vring::Error> for Error {
    open spec fn obeys_from_spec() -> bool {
        true
    }

    open spec fn from_spec(e: vring::Error) -> Error {
        match e {
            vring::Error::NoData => Error::Empty,
            _ => Error::Vring(e),
        }
    }
}

/// A typed datagram transport over one pair of vrings: frames are sent on
/// the outbound ring and consumed from the inbound ring. Both roles are
/// guest roles — the host primes both rings with buffers and this side
/// only fills or reads them.
#[derive(Debug, Clone, Copy, PartialEq, Eq, Structural)]
pub struct Transport {
    /// Role on the outbound ring.
    pub send_channel: GuestVring,
    /// Role on the inbound ring.
    pub receive_channel: GuestVring,
}

/// Anything one frame can be sent through: the outbound half of a
/// transport. Handlers that must reply to an inbound frame depend only
/// on this, not on the whole transport.
pub trait SendMessage {
    /// The role on the outbound ring that sending drives.
    spec fn spec_tx_role(&self) -> GuestVring;

    /// Send one frame carrying `payload` from `source` to `destination`
    /// over the outbound ring backed by `mem`, as
    /// [`Transport::send`] does.
    fn send(&mut self, mem: &mut VringMemory, source: u32, destination: u32, payload: &[u8])
        -> (r: Result<(), Error>)
        requires
            old(mem).wf(),
            old(self).spec_tx_role().wf_for(*old(mem)),
            payload@.len() < 65536,
        ensures
            final(mem).wf(),
            final(self).spec_tx_role().wf_for(*final(mem)),
            ({
                let tx = old(self).spec_tx_role();
                let has_work = tx.spec_has_work(*old(mem));
                let d = tx.spec_next_descriptor(*old(mem));
                let in_range = d < old(mem).entry_count();
                let frame = Transport::spec_frame(source, destination, payload@);
                let fits = in_range && frame.len() <= old(mem).descriptors.ring@[d].len as int;
                &&& !has_work ==> r == Err::<(), Error>(Error::Empty) && *final(mem) == *old(mem)
                    && final(self).spec_tx_role() == tx
                &&& has_work && !in_range ==> r == Err::<(), Error>(
                    Error::Vring(vring::Error::InternalError),
                ) && *final(mem) == *old(mem) && final(self).spec_tx_role() == tx
                &&& has_work && in_range && !fits ==> r == Err::<(), Error>(
                    Error::Vring(vring::Error::PayloadTooLarge),
                ) && *final(mem) == *old(mem) && final(self).spec_tx_role() == tx
                &&& has_work && in_range && fits ==> ({
                    let n = old(mem).entry_count();
                    let desc = old(mem).descriptors.ring@[d];
                    &&& r == Ok::<(), Error>(())
                    &&& final(self).spec_tx_role() == (GuestVring {
                        entries: tx.entries,
                        last_seen_available: u16_specs::wrapping_add(tx.last_seen_available, 1),
                    })
                    &&& final(mem).available == old(mem).available
                    &&& final(mem).descriptors.ring@ == old(mem).descriptors.ring@.update(
                        d,
                        DescriptorEntry {
                            addr: desc.addr,
                            len: frame.len() as u32,
                            flags: DescriptorFlags(0),
                            next: 0,
                        },
                    )
                    &&& final(mem).buffers@ =~= old(mem).buffers@.update(
                        d,
                        final(mem).buffers@[d],
                    )
                    &&& final(mem).buffers@[d]@ == frame + old(mem).buffers@[d]@.skip(
                        frame.len() as int,
                    )
                    &&& final(mem).used.flags == old(mem).used.flags
                    &&& final(mem).used.idx == u16_specs::wrapping_add(old(mem).used.idx, 1)
                    &&& final(mem).used.ring@ == old(mem).used.ring@.update(
                        slot(old(mem).used.idx, n),
                        UsedEntry { idx: d as u32, len: frame.len() as u32 },
                    )
                })
            });
}

impl SendMessage for Transport {
    open spec fn spec_tx_role(&self) -> GuestVring {
        self.send_channel
    }

    fn send(&mut self, mem: &mut VringMemory, source: u32, destination: u32, payload: &[u8])
        -> (r: Result<(), Error>) {
        Transport::send(self, mem, source, destination, payload)
    }
}

impl Transport {
    /// Pairs the two ring roles into a transport.
    pub fn new(send_channel: GuestVring, receive_channel: GuestVring) -> (r: Transport)
        ensures
            r == (Transport { send_channel, receive_channel }),
    {
        Transport { send_channel, receive_channel }
    }

    /// Takes the transport apart into its two ring roles again.
    pub fn split(self) -> (r: (GuestVring, GuestVring))
        ensures
            r == (self.send_channel, self.receive_channel),
    {
        (self.send_channel, self.receive_channel)
    }

    /// The full frame (header and body as one byte string) that `send`
    /// writes for the given arguments.
    pub open spec fn spec_frame(source: u32, destination: u32, payload: Seq<u8>) -> Seq<u8> {
        spec_header_bytes(
            Header {
                source,
                destination,
                reserved: 0u32,
                length: payload.len() as u16,
                flags: 0u16,
            },
        ) + payload
    }

    /// Build a header for `payload` and transmit `header || payload` into
    /// the next available buffer of the outbound ring.
    ///
    /// Fails `Empty` when the host has offered no buffer, and
    /// `Vring(PayloadTooLarge)` when the frame exceeds the offered buffer;
    /// failures leave ring and transport untouched.
    pub fn send(&mut self, mem: &mut VringMemory, source: u32, destination: u32, payload: &[u8])
        -> (r: Result<(), Error>)
        requires
            old(mem).wf(),
            old(self).send_channel.wf_for(*old(mem)),
            payload@.len() < 65536,
        ensures
            final(mem).wf(),
            final(self).send_channel.wf_for(*final(mem)),
            final(self).receive_channel == old(self).receive_channel,
            ({
                let tx = old(self).send_channel;
                let has_work = tx.spec_has_work(*old(mem));
                let d = tx.spec_next_descriptor(*old(mem));
                let in_range = d < old(mem).entry_count();
                let frame = Transport::spec_frame(source, destination, payload@);
                let fits = in_range && frame.len() <= old(mem).descriptors.ring@[d].len as int;
                let untouched = *final(mem) == *old(mem) && *final(self) == *old(self);
                &&& !has_work ==> r == Err::<(), Error>(Error::Empty) && untouched
                &&& has_work && !in_range ==> r == Err::<(), Error>(
                    Error::Vring(vring::Error::InternalError),
                ) && untouched
                &&& has_work && in_range && !fits ==> r == Err::<(), Error>(
                    Error::Vring(vring::Error::PayloadTooLarge),
                ) && untouched
                &&& has_work && in_range && fits ==> ({
                    let n = old(mem).entry_count();
                    let desc = old(mem).descriptors.ring@[d];
                    &&& r == Ok::<(), Error>(())
                    &&& final(self).send_channel == (GuestVring {
                        entries: tx.entries,
                        last_seen_available: u16_specs::wrapping_add(tx.last_seen_available, 1),
                    })
                    &&& final(mem).available == old(mem).available
                    &&& final(mem).descriptors.ring@ == old(mem).descriptors.ring@.update(
                        d,
                        DescriptorEntry {
                            addr: desc.addr,
                            len: frame.len() as u32,
                            flags: DescriptorFlags(0),
                            next: 0,
                        },
                    )
                    &&& final(mem).buffers@ =~= old(mem).buffers@.update(d, final(mem).buffers@[d])
                    &&& final(mem).buffers@[d]@ == frame + old(mem).buffers@[d]@.skip(
                        frame.len() as int,
                    )
                    &&& final(mem).used.flags == old(mem).used.flags
                    &&& final(mem).used.idx == u16_specs::wrapping_add(old(mem).used.idx, 1)
                    &&& final(mem).used.ring@ == old(mem).used.ring@.update(
                        slot(old(mem).used.idx, n),
                        UsedEntry { idx: d as u32, len: frame.len() as u32 },
                    )
                })
            }),
    {
        let tx_header = Header::new(source, destination, payload.len());
        let header_bytes = header_to_bytes(&tx_header);
        let res = self.send_channel.transmit(mem, header_bytes.as_slice(), payload);
        match res {
            Ok(()) => Ok(()),
            Err(e) => Err(Error::from(e)),
        }
    }

    /// The frame bytes sitting in the next inbound buffer: the buffer
    /// prefix of the length its descriptor presents.
    pub open spec fn spec_inbound_frame(self, mem: VringMemory) -> Seq<u8> {
        let d = self.receive_channel.spec_next_descriptor(mem);
        mem.buffers@[d]@.subrange(0, mem.descriptors.ring@[d].len as int)
    }

    /// The next inbound buffer holds a well-formed frame: room for the
    /// header, and a `length` field within the buffer.
    pub open spec fn spec_inbound_valid(self, mem: VringMemory) -> bool {
        let frame = self.spec_inbound_frame(mem);
        &&& frame.len() >= 16
        &&& 16 + spec_parse_header(frame).length as int <= frame.len()
    }

    /// Consume one frame from the inbound ring: split off the 16-byte
    /// header, take `length` body bytes behind it, and hand the descriptor
    /// back on the used ring.
    ///
    /// Fails `Empty` when there is no new frame. A buffer too short for a
    /// header, or a `length` field pointing past the buffer, fails the
    /// whole receive with `Vring(InternalError)` and consumes nothing.
    pub fn receive(&mut self, mem: &mut VringMemory) -> (r: Result<(Header, Vec<u8>), Error>)
        requires
            old(mem).wf(),
            old(self).receive_channel.wf_for(*old(mem)),
        ensures
            final(mem).wf(),
            final(self).receive_channel.wf_for(*final(mem)),
            final(self).send_channel == old(self).send_channel,
            ({
                let rx = old(self).receive_channel;
                let has_work = rx.spec_has_work(*old(mem));
                let d = rx.spec_next_descriptor(*old(mem));
                let in_range = d < old(mem).entry_count();
                let valid = in_range && old(self).spec_inbound_valid(*old(mem));
                let untouched = *final(mem) == *old(mem) && *final(self) == *old(self);
                &&& !has_work ==> r == Err::<(Header, Vec<u8>), Error>(Error::Empty) && untouched
                &&& has_work && !in_range ==> r == Err::<(Header, Vec<u8>), Error>(
                    Error::Vring(vring::Error::InternalError),
                ) && untouched
                &&& has_work && in_range && !valid ==> r == Err::<(Header, Vec<u8>), Error>(
                    Error::Vring(vring::Error::InternalError),
                ) && untouched
                &&& has_work && in_range && valid ==> ({
                    let n = old(mem).entry_count();
                    let desc = old(mem).descriptors.ring@[d];
                    let frame = old(self).spec_inbound_frame(*old(mem));
                    let header = spec_parse_header(frame);
                    &&& r is Ok
                    &&& r->Ok_0.0 == header
                    &&& r->Ok_0.1@ == frame.subrange(16, 16 + header.length as int)
                    &&& final(self).receive_channel == (GuestVring {
                        entries: rx.entries,
                        last_seen_available: u16_specs::wrapping_add(rx.last_seen_available, 1),
                    })
                    &&& final(mem).descriptors == old(mem).descriptors
                    &&& final(mem).available == old(mem).available
                    &&& final(mem).buffers == old(mem).buffers
                    &&& final(mem).used.flags == old(mem).used.flags
                    &&& final(mem).used.idx == u16_specs::wrapping_add(old(mem).used.idx, 1)
                    &&& final(mem).used.ring@ == old(mem).used.ring@.update(
                        slot(old(mem).used.idx, n),
                        UsedEntry { idx: d as u32, len: desc.len },
                    )
                })
            }),
    {
        if self.receive_channel.last_seen_available == mem.available.idx {
            return Err(Error::Empty);
        }
        let n = self.receive_channel.entries;
        let s = (self.receive_channel.last_seen_available as usize) % n;
        let d = mem.available.ring[s].idx as usize;
        if d >= n {
            return Err(Error::Vring(vring::Error::InternalError));
        }
        let desc = mem.descriptors.ring[d];
        let frame_len = desc.len as usize;
        if frame_len < 16 {
            return Err(Error::Vring(vring::Error::InternalError));
        }
        let frame = vring::copy_buffer_prefix(&mem.buffers, d, frame_len);
        let header = header_from_bytes(frame.as_slice());
        let body_len = header.length as usize;
        if body_len > frame_len - 16 {
            return Err(Error::Vring(vring::Error::InternalError));
        }
        let mut body: Vec<u8> = Vec::new();
        let mut i: usize = 0;
        while i < body_len
            invariant
                i <= body_len,
                16 + body_len <= frame_len,
                frame_len == frame@.len(),
                body@ == frame@.subrange(16, 16 + i as int),
            decreases body_len - i,
        {
            body.push(frame[16 + i]);
            proof {
                assert(body@ =~= frame@.subrange(16, 16 + (i + 1) as int));
            }
            i = i + 1;
        }
        self.receive_channel.release_current(mem);
        Ok((header, body))
    }
}

/// Dynamic name-service announcement: publishes or revokes an endpoint
/// when sent to destination 53.
#[derive(Debug, PartialEq, Eq)]
pub struct NameServiceAnnounce {
    /// Name of the remote service.
    pub name: String32,
    /// Description of the remote service.
    pub description: String32,
    /// Address of the remote service.
    pub address: u32,
    /// Whether the service is created or destroyed.
    pub flags: NameServiceAnnounceFlags,
}

/// Whether a name-service announcement creates or destroys an endpoint.
#[derive(Debug, Clone, Copy, PartialEq, Eq, Structural)]
pub enum NameServiceAnnounceFlags {
    /// Publish the endpoint.
    Create,
    /// Revoke the endpoint.
    Destroy,
}

impl NameServiceAnnounceFlags {
    /// Wire value of the flag.
    pub open spec fn spec_value(self) -> u32 {
        match self {
            NameServiceAnnounceFlags::Create => 0,
            NameServiceAnnounceFlags::Destroy => 1,
        }
    }

    pub fn value(self) -> (r: u32)
        returns
            self.spec_value(),
    {
        match self {
            NameServiceAnnounceFlags::Create => 0,
            NameServiceAnnounceFlags::Destroy => 1,
        }
    }
}

/// The 72 wire bytes of an announcement: two 32-byte NUL-padded strings,
/// then the address and the flag value in little-endian order.
pub open spec fn spec_announce_bytes(a: NameServiceAnnounce) -> Seq<u8> {
    a.name@ + a.description@ + spec_u32_le(a.address) + spec_u32_le(a.flags.spec_value())
}

impl NameServiceAnnounce {
    /// Builds an announcement; name and description are truncated or
    /// NUL-padded to 32 bytes.
    pub fn new(name: &str, description: &str, address: u32, mode: NameServiceAnnounceFlags) -> (r:
        NameServiceAnnounce)
        ensures
            r.name@ == spec_pad32(name.spec_bytes()),
            r.description@ == spec_pad32(description.spec_bytes()),
            r.address == address,
            r.flags == mode,
    {
        NameServiceAnnounce {
            name: String32::from_str(name),
            description: String32::from_str(description),
            address,
            flags: mode,
        }
    }

    /// Serialise the announcement into its 72 wire bytes.
    pub fn to_bytes(&self) -> (r: Vec<u8>)
        requires
            self.name.wf(),
            self.description.wf(),
        ensures
            r@ == spec_announce_bytes(*self),
            r@.len() == 72,
    {
        let mut r: Vec<u8> = Vec::new();
        r.extend_from_slice(self.name.as_bytes().as_slice());
        r.extend_from_slice(self.description.as_bytes().as_slice());
        push_u32_le(&mut r, self.address);
        push_u32_le(&mut r, self.flags.value());
        proof {
            assert(r@ =~= spec_announce_bytes(*self));
        }
        r
    }
}

} // verus!
