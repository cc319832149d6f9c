use hashchain::local_transport::LocalTransport;
use hashchain::transport::{NetAddr, Transport, TransportError};

#[test]
fn test_connect() {
    let mut transport_a = LocalTransport::new(NetAddr(String::from("local-a")));
    let transport_b = LocalTransport::new(NetAddr(String::from("local-b")));
    let transport_c = LocalTransport::new(NetAddr(String::from("local-c")));

    transport_a.connect(&transport_b).unwrap();
    transport_a.connect(&transport_c).unwrap();

    assert_eq!(
        transport_a
            .get_peer(&NetAddr(String::from("local-b")))
            .unwrap(),
        transport_b.get_addr()
    );

    assert_ne!(
        transport_a
            .get_peer(&NetAddr(String::from("local-b")))
            .unwrap(),
        transport_c.get_addr()
    );
}

#[test]
fn send_delivers_one_envelope_to_destination_only() {
    let mut transport_a = LocalTransport::new(NetAddr(String::from("local-a")));
    let mut transport_b = LocalTransport::new(NetAddr(String::from("local-b")));
    let mut transport_c = LocalTransport::new(NetAddr(String::from("local-c")));

    transport_a.connect(&transport_b).unwrap();
    transport_a.connect(&transport_c).unwrap();

    let payload = vec!['h', 'e', 'l', 'l', 'o'];
    transport_a
        .send_message(&mut transport_b, payload.clone())
        .unwrap();

    let rpc = transport_b.consume().expect("one envelope must be delivered");
    assert_eq!(rpc.from, NetAddr(String::from("local-a")));
    assert_eq!(rpc.payload, payload);
    assert!(transport_b.consume().is_none());
    assert!(transport_c.consume().is_none());
}

#[test]
fn send_to_unregistered_address_reports_unknown_peer() {
    let transport_a = LocalTransport::new(NetAddr(String::from("local-a")));
    let mut transport_d = LocalTransport::new(NetAddr(String::from("local-d")));

    let result = transport_a.send_message(&mut transport_d, vec!['x']);
    assert_eq!(result, Err(TransportError::UnknownPeer));
    assert!(transport_d.consume().is_none());
}

#[test]
fn registration_is_directional() {
    let mut transport_a = LocalTransport::new(NetAddr(String::from("local-a")));
    let mut transport_b = LocalTransport::new(NetAddr(String::from("local-b")));

    transport_a.connect(&transport_b).unwrap();

    let reverse = transport_b.send_message(&mut transport_a, vec!['y']);
    assert_eq!(reverse, Err(TransportError::UnknownPeer));
    assert!(transport_a.consume().is_none());
}

#[test]
fn consume_observes_fifo_order() {
    let mut transport_a = LocalTransport::new(NetAddr(String::from("local-a")));
    let mut transport_b = LocalTransport::new(NetAddr(String::from("local-b")));

    transport_a.connect(&transport_b).unwrap();
    transport_a.send_message(&mut transport_b, vec!['1']).unwrap();
    transport_a.send_message(&mut transport_b, vec!['2']).unwrap();

    assert_eq!(transport_b.consume().unwrap().payload, vec!['1']);
    assert_eq!(transport_b.consume().unwrap().payload, vec!['2']);
    assert!(transport_b.consume().is_none());
}
