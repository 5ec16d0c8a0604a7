use netsim::events::NetworkSimulationEvent;
use netsim::message::Endpoint;
use netsim::message::Message;
use netsim::message::Packet;
use netsim::requirements::DeliveryRequirement;
use netsim::socket::InMemorySocketResource;
use netsim::socket::SocketEvent;
use netsim::systems::InMemoryNetworkRecvSystem;
use netsim::systems::InMemoryNetworkSendSystem;
use netsim::systems::SendError;
use netsim::timing::NetworkSimulationTime;
use netsim::transport::TransportResource;

fn endpoint_a() -> Endpoint {
    Endpoint { host: 0x0a000001, port: 4000 }
}

fn endpoint_b() -> Endpoint {
    Endpoint { host: 0x0a000002, port: 4001 }
}

#[test]
fn from_parts_round_trips_payload() {
    let m = Message::from_parts(endpoint_a(), vec![9, 8, 7], DeliveryRequirement::Unreliable);
    assert_eq!(m.payload_to_vec(), vec![9, 8, 7]);
    assert_eq!(m.destination, endpoint_a());
    assert_eq!(m.delivery, DeliveryRequirement::Unreliable);
}

#[test]
fn enqueue_then_ready_drain_preserves_order() {
    let mut transport = TransportResource::new();
    for i in 0..5u8 {
        transport.enqueue(Message::from_parts(
            endpoint_a(),
            vec![i],
            DeliveryRequirement::Unreliable,
        ));
    }
    assert_eq!(transport.len(), 5);
    let drained = transport.drain_messages_to_send(true);
    assert_eq!(transport.len(), 0);
    assert_eq!(drained.len(), 5);
    for (i, m) in drained.iter().enumerate() {
        assert_eq!(m.payload_to_vec(), vec![i as u8]);
    }
}

#[test]
fn not_ready_drain_yields_empty_batch_and_retains() {
    let mut transport = TransportResource::new();
    transport.enqueue(Message::from_parts(endpoint_a(), vec![1], DeliveryRequirement::Unreliable));
    transport.enqueue(Message::from_parts(endpoint_b(), vec![2], DeliveryRequirement::Unreliable));
    let drained = transport.drain_messages_to_send(false);
    assert_eq!(drained.len(), 0);
    assert_eq!(transport.len(), 2);
}

#[test]
fn gate_not_ready_send_pass_sends_nothing() {
    let mut transport = TransportResource::new();
    let mut socket = InMemorySocketResource::new();
    let mut time = NetworkSimulationTime::new();
    time.set_ready(false);
    transport.enqueue(Message::from_parts(endpoint_a(), vec![1], DeliveryRequirement::Unreliable));
    transport.enqueue(Message::from_parts(endpoint_b(), vec![2], DeliveryRequirement::Unreliable));

    let r = InMemoryNetworkSendSystem::run(&mut transport, &mut socket, &time);
    assert!(r.is_ok());
    assert_eq!(transport.len(), 2);
    assert_eq!(socket.len(), 0);

    time.set_ready(true);
    let r = InMemoryNetworkSendSystem::run(&mut transport, &mut socket, &time);
    assert!(r.is_ok());
    assert_eq!(transport.len(), 0);
    assert_eq!(socket.len(), 2);
}

#[test]
fn unsupported_requirement_is_fatal_and_deterministic() {
    let mut transport = TransportResource::new();
    let mut socket = InMemorySocketResource::new();
    let time = NetworkSimulationTime::new();
    transport.enqueue(Message::from_parts(endpoint_a(), vec![1], DeliveryRequirement::Unreliable));
    transport.enqueue(Message::from_parts(
        endpoint_a(),
        vec![2],
        DeliveryRequirement::ReliableOrdered,
    ));
    transport.enqueue(Message::from_parts(endpoint_b(), vec![3], DeliveryRequirement::Unreliable));

    let r = InMemoryNetworkSendSystem::run(&mut transport, &mut socket, &time);
    assert_eq!(
        r,
        Err(SendError::UnsupportedDelivery(DeliveryRequirement::ReliableOrdered))
    );
    // The supported prefix was sent; the offending message and everything
    // after it stayed queued, in order: nothing was dropped silently.
    assert_eq!(socket.len(), 1);
    assert_eq!(transport.len(), 2);
    let rest = transport.drain_messages_to_send(true);
    assert_eq!(rest[0].payload_to_vec(), vec![2]);
    assert_eq!(rest[0].delivery, DeliveryRequirement::ReliableOrdered);
    assert_eq!(rest[1].payload_to_vec(), vec![3]);
}

#[test]
fn every_unsupported_variant_is_rejected() {
    let variants = [
        DeliveryRequirement::UnreliableSequenced,
        DeliveryRequirement::Reliable,
        DeliveryRequirement::ReliableSequenced,
        DeliveryRequirement::ReliableOrdered,
    ];
    for v in variants {
        let mut transport = TransportResource::new();
        let mut socket = InMemorySocketResource::new();
        let time = NetworkSimulationTime::new();
        transport.enqueue(Message::from_parts(endpoint_a(), vec![0], v));
        let r = InMemoryNetworkSendSystem::run(&mut transport, &mut socket, &time);
        assert_eq!(r, Err(SendError::UnsupportedDelivery(v)));
        assert_eq!(socket.len(), 0);
        assert_eq!(transport.len(), 1);
    }
    assert!(InMemorySocketResource::honors(DeliveryRequirement::Unreliable));
    assert!(!InMemorySocketResource::honors(DeliveryRequirement::Reliable));
}

#[test]
fn socket_is_fifo() {
    let mut socket = InMemorySocketResource::new();
    for i in 0..3u8 {
        let m = Message::from_parts(endpoint_a(), vec![i], DeliveryRequirement::Unreliable);
        let Message { destination, payload, .. } = m;
        socket.send(Packet { destination, payload });
    }
    for i in 0..3u8 {
        match socket.recv() {
            Some(SocketEvent::Packet(p)) => {
                assert_eq!(p.payload_to_vec(), vec![i]);
            }
            None => panic!("queue ended early"),
        }
    }
    assert!(socket.recv().is_none());
}

#[test]
fn recv_on_empty_socket_is_idempotent() {
    let mut socket = InMemorySocketResource::new();
    for _ in 0..10 {
        assert!(socket.recv().is_none());
        assert_eq!(socket.len(), 0);
    }
}

#[test]
fn end_to_end_two_messages() {
    let mut transport = TransportResource::new();
    let mut socket = InMemorySocketResource::new();
    let mut channel = netsim::events::EventChannel::new();
    let time = NetworkSimulationTime::new();
    let mut reader = channel.register_reader();

    transport.enqueue(Message::from_parts(
        endpoint_a(),
        vec![1, 2, 3],
        DeliveryRequirement::Unreliable,
    ));
    transport.enqueue(Message::from_parts(
        endpoint_b(),
        vec![4, 5],
        DeliveryRequirement::Unreliable,
    ));

    InMemoryNetworkSendSystem::run(&mut transport, &mut socket, &time).unwrap();
    InMemoryNetworkRecvSystem::run(&mut socket, &mut channel);

    let events = channel.read(&mut reader);
    assert_eq!(events.len(), 2);
    let NetworkSimulationEvent::Message(addr0, _) = &events[0];
    assert_eq!(*addr0, endpoint_a());
    assert_eq!(events[0].payload_to_vec(), vec![1, 2, 3]);
    let NetworkSimulationEvent::Message(addr1, _) = &events[1];
    assert_eq!(*addr1, endpoint_b());
    assert_eq!(events[1].payload_to_vec(), vec![4, 5]);
}

#[test]
fn order_no_loss_no_duplication_many_messages() {
    let mut transport = TransportResource::new();
    let mut socket = InMemorySocketResource::new();
    let mut channel = netsim::events::EventChannel::new();
    let time = NetworkSimulationTime::new();
    let mut reader = channel.register_reader();

    let n: u8 = 50;
    for i in 0..n {
        transport.enqueue(Message::from_parts(
            endpoint_a(),
            vec![i, i.wrapping_mul(3)],
            DeliveryRequirement::Unreliable,
        ));
    }
    InMemoryNetworkSendSystem::run(&mut transport, &mut socket, &time).unwrap();
    InMemoryNetworkRecvSystem::run(&mut socket, &mut channel);
    assert_eq!(socket.len(), 0);

    let events = channel.read(&mut reader);
    assert_eq!(events.len(), n as usize);
    for (i, ev) in events.iter().enumerate() {
        let i = i as u8;
        assert_eq!(ev.payload_to_vec(), vec![i, i.wrapping_mul(3)]);
        assert_eq!(ev.address(), endpoint_a());
    }
    // A second pass over both tasks produces nothing further.
    InMemoryNetworkSendSystem::run(&mut transport, &mut socket, &time).unwrap();
    InMemoryNetworkRecvSystem::run(&mut socket, &mut channel);
    assert_eq!(channel.read(&mut reader).len(), 0);
}
