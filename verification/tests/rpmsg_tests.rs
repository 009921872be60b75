//! Tests of the framing layer: header codec, frame round trip over the
//! rings, the name-service registration, and the request/reply path.

use ipu_demo::firmware;
use ipu_demo::rpmsg::{
    header_from_bytes, header_to_bytes, Error, Header, NameServiceAnnounce,
    NameServiceAnnounceFlags, SendMessage, Transport, MBOX_BOOTINIT_DONE,
};
use ipu_demo::string32::String32;
use ipu_demo::vring;
use ipu_demo::vring::{DescriptorFlags, GuestVring, HostVring, VringMemory};

fn frame(source: u32, destination: u32, body: &[u8]) -> Vec<u8> {
    let mut f = header_to_bytes(&Header::new(source, destination, body.len()));
    f.extend_from_slice(body);
    f
}

#[test]
fn header_codec_round_trip() {
    let h = Header::new(0xDEADBEEF, 0x35, 72);
    let bytes = header_to_bytes(&h);
    assert_eq!(bytes.len(), 16);
    // Little-endian fields at their wire offsets.
    assert_eq!(&bytes[0..4], &[0xEF, 0xBE, 0xAD, 0xDE]);
    assert_eq!(&bytes[4..8], &[0x35, 0, 0, 0]);
    assert_eq!(&bytes[8..12], &[0, 0, 0, 0]);
    assert_eq!(&bytes[12..14], &[72, 0]);
    assert_eq!(&bytes[14..16], &[0, 0]);
    let parsed = header_from_bytes(&bytes);
    assert_eq!(parsed, h);
}

#[test]
fn framing_round_trip() {
    // The host places a frame on the inbound ring; receive recovers
    // exactly the source, destination and body bytes.
    let mut rx_mem = VringMemory::new(4, 512);
    let mut host = HostVring::new(4);
    let body = b"some payload bytes \x00\x01\x02";
    let wire = frame(100, 61, body);
    host.give_to_guest(&mut rx_mem, &wire, wire.len() as u32, DescriptorFlags(0))
        .unwrap();

    let mut transport = Transport::new(GuestVring::new(4), GuestVring::new(4));
    let (header, received) = transport.receive(&mut rx_mem).unwrap();
    assert_eq!(header.source, 100);
    assert_eq!(header.destination, 61);
    assert_eq!(header.length as usize, body.len());
    assert_eq!(received, body);
}

#[test]
fn receive_rejects_bad_length() {
    // A header whose length field points past the buffer fails the
    // whole receive and consumes nothing.
    let mut rx_mem = VringMemory::new(4, 64);
    let mut host = HostVring::new(4);
    let mut wire = header_to_bytes(&Header::new(1, 2, 400));
    wire.extend_from_slice(&[0; 8]);
    host.give_to_guest(&mut rx_mem, &wire, wire.len() as u32, DescriptorFlags(0))
        .unwrap();

    let mut transport = Transport::new(GuestVring::new(4), GuestVring::new(4));
    let used_before = rx_mem.used.idx;
    let r = transport.receive(&mut rx_mem);
    assert!(matches!(r, Err(Error::Vring(vring::Error::InternalError))));
    assert_eq!(rx_mem.used.idx, used_before);
}

#[test]
fn receive_empty() {
    let mut rx_mem = VringMemory::new(4, 64);
    let mut transport = Transport::new(GuestVring::new(4), GuestVring::new(4));
    assert!(matches!(transport.receive(&mut rx_mem), Err(Error::Empty)));
}

#[test]
fn error_from_vring() {
    assert_eq!(Error::from(vring::Error::NoData), Error::Empty);
    assert_eq!(
        Error::from(vring::Error::PayloadTooLarge),
        Error::Vring(vring::Error::PayloadTooLarge)
    );
    assert_eq!(
        Error::from(vring::Error::OutOfMemory),
        Error::Vring(vring::Error::OutOfMemory)
    );
}

#[test]
fn string32_pads_and_truncates() {
    let s = String32::from_str("rpmsg-proto");
    let mut expected = b"rpmsg-proto".to_vec();
    expected.resize(32, 0);
    assert_eq!(s.as_bytes(), &expected);

    let long = String32::from_str("a string that is much longer than thirty-two bytes");
    assert_eq!(
        s.as_bytes().len(),
        32,
    );
    assert_eq!(long.as_bytes().as_slice(), &b"a string that is much longer tha"[..]);
}

#[test]
fn announce_wire_format() {
    let a = NameServiceAnnounce::new(
        "rpmsg-proto",
        "rpmsg-proto",
        61,
        NameServiceAnnounceFlags::Create,
    );
    let bytes = a.to_bytes();
    assert_eq!(bytes.len(), 72);
    let mut name = b"rpmsg-proto".to_vec();
    name.resize(32, 0);
    assert_eq!(&bytes[0..32], &name[..]);
    assert_eq!(&bytes[32..64], &name[..]);
    assert_eq!(&bytes[64..68], &[61, 0, 0, 0]);
    assert_eq!(&bytes[68..72], &[0, 0, 0, 0]);

    let d = NameServiceAnnounce::new("x", "y", 7, NameServiceAnnounceFlags::Destroy);
    let bytes = d.to_bytes();
    assert_eq!(&bytes[68..72], &[1, 0, 0, 0]);
}

#[test]
fn name_service_registration() {
    // After the handshake the firmware emits exactly one frame:
    // source 61, destination 53, body of 72 bytes announcing
    // "rpmsg-proto" at address 61 with the create flag.
    let mut tx_mem = VringMemory::new(4, 512);
    let mut host = HostVring::new(4);
    for _ in 0..4 {
        host.give_to_guest(&mut tx_mem, &[], 512, DescriptorFlags(2))
            .unwrap();
    }
    let mut transport = Transport::new(GuestVring::new(4), GuestVring::new(4));

    firmware::register_proto(&mut transport, &mut tx_mem).unwrap();

    // Exactly one frame was published on the used ring.
    assert_eq!(tx_mem.used.idx, 1);
    let entry = host.take_from_guest(&mut tx_mem).unwrap();
    assert_eq!(entry.len, 16 + 72);
    let sent = &tx_mem.buffers[entry.idx as usize][0..entry.len as usize];
    let header = header_from_bytes(&sent[0..16]);
    assert_eq!(header.source, 61);
    assert_eq!(header.destination, 53);
    assert_eq!(header.length, 72);
    let mut name = b"rpmsg-proto".to_vec();
    name.resize(32, 0);
    assert_eq!(&sent[16..48], &name[..]);
    assert_eq!(&sent[48..80], &name[..]);
    assert_eq!(&sent[80..84], &[61, 0, 0, 0]);
    assert_eq!(&sent[84..88], &[0, 0, 0, 0]);
    // The kick that follows the publish uses the outbound-space tag.
    assert_eq!(firmware::TAG_OUTBOUND_SPACE, 0);
}

#[test]
fn request_reply() {
    // The host publishes an inbound frame {source 100, destination 61,
    // length 5} with body "hello" and kicks tag 1; the firmware replies
    // from 61 to 100 with a printable body of at most 64 bytes.
    let mut rx_mem = VringMemory::new(4, 512);
    let mut rx_host = HostVring::new(4);
    let wire = frame(100, 61, b"hello");
    rx_host
        .give_to_guest(&mut rx_mem, &wire, wire.len() as u32, DescriptorFlags(0))
        .unwrap();

    let mut tx_mem = VringMemory::new(4, 512);
    let mut tx_host = HostVring::new(4);
    tx_host
        .give_to_guest(&mut tx_mem, &[], 512, DescriptorFlags(2))
        .unwrap();

    let mut transport = Transport::new(GuestVring::new(4), GuestVring::new(4));
    assert_eq!(firmware::dispatch(1), firmware::Action::ProcessInbound);
    firmware::handle_inbound(&mut transport, &mut rx_mem, &mut tx_mem, 17).unwrap();

    // The consumed request went back on the inbound used ring.
    assert_eq!(rx_mem.used.idx, 1);
    let request = rx_host.take_from_guest(&mut rx_mem).unwrap();
    assert_eq!(request.len, 21);

    // The reply sits on the outbound used ring.
    assert_eq!(tx_mem.used.idx, 1);
    let reply = tx_host.take_from_guest(&mut tx_mem).unwrap();
    assert_eq!(reply.len, 16 + 64);
    let sent = &tx_mem.buffers[reply.idx as usize][0..reply.len as usize];
    let header = header_from_bytes(&sent[0..16]);
    assert_eq!(header.source, 61);
    assert_eq!(header.destination, 100);
    assert_eq!(header.length, 64);
    let body = &sent[16..80];
    assert!(body.len() <= 64);
    let text = std::str::from_utf8(body).expect("reply body must be UTF-8");
    assert!(text.starts_with("Response to message 17"));
    assert_eq!(firmware::TAG_OUTBOUND_SPACE, 0);
}

#[test]
fn send_through_trait() {
    // A handler that only holds the sending half places the same frame
    // a full transport would.
    let mut tx_mem = VringMemory::new(2, 128);
    let mut host = HostVring::new(2);
    host.give_to_guest(&mut tx_mem, &[], 128, DescriptorFlags(2))
        .unwrap();
    let mut transport = Transport::new(GuestVring::new(2), GuestVring::new(2));
    let sender: &mut dyn SendMessage = &mut transport;
    sender.send(&mut tx_mem, 61, 100, b"ping").unwrap();
    let entry = host.take_from_guest(&mut tx_mem).unwrap();
    assert_eq!(entry.len, 20);
    let sent = &tx_mem.buffers[entry.idx as usize][0..20];
    let header = header_from_bytes(&sent[0..16]);
    assert_eq!(header.source, 61);
    assert_eq!(header.destination, 100);
    assert_eq!(&sent[16..20], b"ping");
}

#[test]
fn boot_handshake() {
    // The firmware spins while the status byte is not 7 and reports
    // boot completion with the right mailbox tag once it is.
    let table = ipu_demo::board::ResourceTable::new();
    assert_eq!(table.rpmsg_vdev.status, 0);
    assert!(!firmware::virtio_status_ready(table.rpmsg_vdev.status));
    let mut status = table.rpmsg_vdev.status;
    let mut polls = 0;
    while !firmware::virtio_status_ready(status) {
        // In each polling round the device entry is re-read after a
        // cache invalidate; after three rounds the harness plays the
        // host writing 7.
        polls += 1;
        if polls == 3 {
            status = 7;
        }
    }
    assert_eq!(polls, 3);
    assert!(firmware::virtio_status_ready(status));
    assert_eq!(MBOX_BOOTINIT_DONE, 0xFFFFFF07);
    assert_eq!(
        vring::VIRTIO_CONFIG_S_ACKNOWLEDGE | vring::VIRTIO_CONFIG_S_DRIVER
            | vring::VIRTIO_CONFIG_S_DRIVER_OK,
        7
    );
}
