use blaze_pk::error::DecodeError;
use blaze_pk::packet::{Packet, PacketHeader, PacketType};
use pocket_relay_mitm::components::{Components, Redirector};
use pocket_relay_mitm::models::{InstanceDetails, InstanceNet};
use pocket_relay_mitm::packet::{Header, PacketKind};
use pocket_relay_mitm::redirector::{handle_packet, RedirectReply};
use pocket_relay_mitm::retriever::{
    dns_query_url, lookup_host, Answer, HostAddr, LookupResponse, LookupStep, ResponseStep, RetSession,
    Retriever, RetrieverError,
};

fn packet(component: u16, command: u16, ty: PacketType, id: u16) -> Packet {
    Packet::raw(PacketHeader { component, command, error: 0, ty, id }, vec![1, 2, 3])
}

fn header(component: u16, command: u16, ty: PacketKind, id: u16) -> Header {
    Header { component, command, error: 0, ty, id }
}

#[test]
fn session_ids_start_at_zero_and_count_up() {
    let mut s = RetSession::new();
    assert_eq!(s.id(), 0);
    let first = s.get_main_instance();
    assert_eq!(first, header(5, 1, PacketKind::Request, 0));
    s.request_sent();
    assert_eq!(s.id(), 1);
    let second = s.request(&Components::Unknown(7, 8));
    assert_eq!(second, header(7, 8, PacketKind::Request, 1));
    s.request_sent();
    assert_eq!(s.id(), 2);
}

#[test]
fn request_does_not_advance_id() {
    let s = RetSession::new();
    let a = s.request(&Components::Redirector(Redirector::GetServerInstance));
    let b = s.request(&Components::Redirector(Redirector::GetServerInstance));
    assert_eq!(a, b);
    assert_eq!(s.id(), 0);
}

#[test]
fn matching_response_is_taken() {
    let request = header(5, 1, PacketKind::Request, 0);
    let p = packet(5, 1, PacketType::Response, 0);
    let h = header(5, 1, PacketKind::Response, 0);
    match RetSession::expect_response(&request, &h, p) {
        ResponseStep::Done(Ok(got)) => {
            assert_eq!(got.header.component, 5);
            assert_eq!(got.header.ty, PacketType::Response);
            assert_eq!(&got.contents[..], &[1, 2, 3]);
        }
        _ => panic!("expected the response"),
    }
}

#[test]
fn error_packet_ends_wait_with_error() {
    let request = header(5, 1, PacketKind::Request, 0);
    let p = packet(9, 9, PacketType::Error, 0);
    let h = header(9, 9, PacketKind::Error, 0);
    match RetSession::expect_response(&request, &h, p) {
        ResponseStep::Done(Err(RetrieverError::Packet(got))) => assert_eq!(got.header.component, 9),
        _ => panic!("expected an error packet"),
    }
}

#[test]
fn other_packets_are_skipped() {
    let request = header(5, 1, PacketKind::Request, 0);
    let cases = [
        (header(5, 2, PacketKind::Response, 0), packet(5, 2, PacketType::Response, 0)),
        (header(5, 1, PacketKind::Request, 0), packet(5, 1, PacketType::Request, 0)),
        (header(5, 1, PacketKind::Unknown(0x4000), 0), packet(5, 1, PacketType::Unknown(0x4000), 0)),
    ];
    for (h, p) in cases {
        assert!(matches!(RetSession::expect_response(&request, &h, p), ResponseStep::Skip));
    }
}

#[test]
fn law_redirector_reply_is_accepted_by_retriever() {
    let session = RetSession::new();
    let request = session.get_main_instance();
    let reply = handle_packet(&request);
    let response = match reply {
        RedirectReply::Instance { response, .. } => response,
        RedirectReply::Empty { .. } => panic!("the instance request must be redirected"),
    };
    let p = Packet::raw_empty(PacketHeader {
        component: response.component,
        command: response.command,
        error: response.error,
        ty: PacketType::Response,
        id: response.id,
    });
    assert!(matches!(RetSession::expect_response(&request, &response, p), ResponseStep::Done(Ok(_))));
}

#[test]
fn retriever_from_instance() {
    let details = InstanceDetails {
        net: InstanceNet::from(("159.153.64.175".to_string(), 14219)),
        secure: true,
    };
    let (host, port) = Retriever::get_main_host(InstanceDetails {
        net: InstanceNet { host: "10.0.0.1".to_string(), port: 1 },
        secure: false,
    });
    assert_eq!(host, "10.0.0.1");
    assert_eq!(port, 1);
    let r = Retriever::new(details);
    assert_eq!(r.host(), "159.153.64.175");
    assert_eq!(r.port(), 14219);
    assert_eq!(Retriever::REDIRECTOR_HOST, "gosredirector.ea.com");
    assert_eq!(Retriever::REDIRECT_PORT, 42127);
}

#[test]
fn retriever_error_from() {
    assert!(matches!(RetrieverError::from(DecodeError::Other("bad")), RetrieverError::Decode(_)));
    let io = std::io::Error::new(std::io::ErrorKind::Other, "closed");
    match RetrieverError::from(io) {
        RetrieverError::IO(e) => assert_eq!(e.to_string(), "closed"),
        _ => panic!("expected an io error"),
    }
}

#[test]
fn loopback_addresses() {
    assert!(HostAddr::V4([127, 0, 0, 1]).is_loopback());
    assert!(HostAddr::V4([127, 255, 3, 9]).is_loopback());
    assert!(!HostAddr::V4([159, 153, 64, 175]).is_loopback());
    assert!(HostAddr::V6([0, 0, 0, 0, 0, 0, 0, 1]).is_loopback());
    assert!(!HostAddr::V6([0, 0, 0, 0, 0, 0, 0, 0]).is_loopback());
    assert!(!HostAddr::V6([0x2600, 0x1403, 0xa, 0, 0, 0, 0, 0x43]).is_loopback());
}

#[test]
fn dns_url() {
    assert_eq!(
        dns_query_url("gosredirector.ea.com"),
        "https://dns.google/resolve?name=gosredirector.ea.com&type=A"
    );
}

#[test]
fn lookup_uses_non_loopback_system_address() {
    assert!(matches!(lookup_host("gosredirector.ea.com", Some(HostAddr::V4([159, 153, 64, 175]))), LookupStep::UseSystem));
}

#[test]
fn lookup_falls_back_to_http_dns() {
    for system in [None, Some(HostAddr::V4([127, 0, 0, 1])), Some(HostAddr::V6([0, 0, 0, 0, 0, 0, 0, 1]))] {
        match lookup_host("gosredirector.ea.com", system) {
            LookupStep::Query(url) => {
                assert_eq!(url, "https://dns.google/resolve?name=gosredirector.ea.com&type=A")
            }
            LookupStep::UseSystem => panic!("expected a DNS query"),
        }
    }
}

#[test]
fn last_answer_is_used() {
    let r = LookupResponse {
        answer: vec![
            Answer { data: "159.153.64.175".to_string() },
            Answer { data: "159.153.64.176".to_string() },
        ],
    };
    assert_eq!(r.last_answer(), Some("159.153.64.176".to_string()));
    assert_eq!(LookupResponse { answer: vec![] }.last_answer(), None);
}

#[test]
fn law_successive_requests_carry_ids_in_order() {
    let mut s = RetSession::new();
    let mut ids = Vec::new();
    for _ in 0..5 {
        let h = s.request(&Components::Unknown(1, 2));
        ids.push(h.id);
        s.request_sent();
    }
    assert_eq!(ids, vec![0, 1, 2, 3, 4]);
    assert_eq!(s.id(), 5);
}

#[test]
fn notifications_go_to_the_handler() {
    let request = header(5, 1, PacketKind::Request, 0);
    for (component, command) in [(5u16, 1u16), (0x7802, 0x14)] {
        let h = header(component, command, PacketKind::Notify, 0);
        match RetSession::expect_response(&request, &h, packet(component, command, PacketType::Notify, 0)) {
            ResponseStep::Notify(got) => {
                assert_eq!(got.header.component, component);
                assert_eq!(got.header.ty, PacketType::Notify);
            }
            _ => panic!("expected the notification to be handed on"),
        }
    }
}
