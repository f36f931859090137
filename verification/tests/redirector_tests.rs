use pocket_relay_mitm::packet::{Header, PacketKind};
use pocket_relay_mitm::redirector::{handle_packet, redirect_details, RedirectReply};
use pocket_relay_mitm::{EXTERNAL_HOST, MAIN_PORT, REDIRECTOR_PORT};

#[test]
fn constants() {
    assert_eq!(EXTERNAL_HOST, "gosredirector.ea.com");
    assert_eq!(REDIRECTOR_PORT, 42127);
    assert_eq!(MAIN_PORT, 42128);
}

#[test]
fn redirect_details_point_at_main_server() {
    let d = redirect_details();
    assert_eq!(d.net.host, "gosredirector.ea.com");
    assert_eq!(d.net.port, 42128);
    assert!(!d.secure);
}

#[test]
fn instance_request_is_answered_with_details() {
    let h = Header { component: 5, command: 1, error: 0, ty: PacketKind::Request, id: 4 };
    let reply = handle_packet(&h);
    assert!(reply.is_final());
    match reply {
        RedirectReply::Instance { response, details } => {
            assert_eq!(response, Header { component: 5, command: 1, error: 0, ty: PacketKind::Response, id: 4 });
            assert_eq!(details.net.host, "gosredirector.ea.com");
            assert_eq!(details.net.port, 42128);
            assert!(!details.secure);
        }
        RedirectReply::Empty { .. } => panic!("expected the instance details"),
    }
}

#[test]
fn other_packets_get_empty_response() {
    let h = Header { component: 1, command: 0x28, error: 0, ty: PacketKind::Request, id: 9 };
    let reply = handle_packet(&h);
    assert!(!reply.is_final());
    match reply {
        RedirectReply::Empty { response } => {
            assert_eq!(response, Header { component: 1, command: 0x28, error: 0, ty: PacketKind::Response, id: 9 });
        }
        RedirectReply::Instance { .. } => panic!("expected an empty response"),
    }
    let wrong_command = Header { component: 5, command: 2, error: 0, ty: PacketKind::Request, id: 1 };
    assert!(matches!(handle_packet(&wrong_command), RedirectReply::Empty { .. }));
}

#[test]
fn instance_path_redirects_whatever_the_type() {
    let h = Header { component: 5, command: 1, error: 7, ty: PacketKind::Notify, id: 0 };
    match handle_packet(&h) {
        RedirectReply::Instance { response, .. } => {
            assert_eq!(response.ty, PacketKind::Response);
            assert_eq!(response.error, 7);
        }
        RedirectReply::Empty { .. } => panic!("expected the instance details"),
    }
}
