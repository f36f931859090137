use blaze_pk::packet::{Packet, PacketHeader, PacketType};
use pocket_relay_mitm::relay::{relay_step, RelayStep, Side};

#[test]
fn read_packet_is_forwarded_unchanged_to_other_side() {
    let p = Packet::raw(PacketHeader { component: 4, command: 2, error: 0, ty: PacketType::Notify, id: 0 }, vec![9, 8]);
    match relay_step(Side::Client, Ok(p)) {
        RelayStep::Forward { packet, to } => {
            assert_eq!(packet.header, PacketHeader { component: 4, command: 2, error: 0, ty: PacketType::Notify, id: 0 });
            assert_eq!(&packet.contents[..], &[9, 8]);
            assert_eq!(to, Side::Server);
        }
        RelayStep::Stop => panic!("expected the packet to be forwarded"),
    }
    let q = Packet::raw_empty(PacketHeader { component: 1, command: 1, error: 0, ty: PacketType::Response, id: 3 });
    match relay_step(Side::Server, Ok(q)) {
        RelayStep::Forward { packet, to } => {
            assert_eq!(packet.header.id, 3);
            assert_eq!(to, Side::Client);
        }
        RelayStep::Stop => panic!("expected the packet to be forwarded"),
    }
}

#[test]
fn failed_read_stops() {
    for side in [Side::Client, Side::Server] {
        let err = std::io::Error::new(std::io::ErrorKind::UnexpectedEof, "eof");
        assert!(matches!(relay_step(side, Err(err)), RelayStep::Stop));
    }
}

#[test]
fn sides() {
    assert_eq!(Side::Client.other(), Side::Server);
    assert_eq!(Side::Server.other(), Side::Client);
    assert_eq!(Side::Client.name(), "Client");
    assert_eq!(Side::Server.name(), "Server");
}
