use libp2p::identity::Keypair;
use libp2p::{Multiaddr, PeerId};
use rollup_boost::flashblocks::{
    FlashblocksArgs, DEFAULT_AGENT_VERSION, DEFAULT_MAX_PEER_COUNT, FLASHBLOCKS_STREAM_PROTOCOL,
    IDLE_CONNECTION_TIMEOUT_SECS, PAYLOAD_CHANNEL_CAPACITY, PING_INTERVAL_SECS, PROTOCOL_VERSION,
    TRANSPORT_TIMEOUT_SECS,
};
use rollup_boost::node::{
    discovery_commands, BehaviourSignal, NodeAction, NodeEvent, NodeLoop, StreamTaskOutcome,
    SwarmCommand,
};
use rollup_boost::stream::{on_line, LineAction, LineEvent, StreamError};

fn addr(text: &str) -> Multiaddr {
    text.parse().unwrap()
}

fn peer() -> PeerId {
    Keypair::generate_ed25519().public().to_peer_id()
}

fn same_command(c: &SwarmCommand, d: &SwarmCommand) -> bool {
    match (c, d) {
        (SwarmCommand::AddPeerAddress(p, a), SwarmCommand::AddPeerAddress(q, b)) => p == q && a == b,
        (SwarmCommand::Dial(a), SwarmCommand::Dial(b)) => a == b,
        _ => false,
    }
}

#[test]
fn discovered_peers_are_recorded_then_dialled_in_order() {
    let (p1, p2) = (peer(), peer());
    let (a1, a2) = (addr("/ip4/192.168.0.1/tcp/9000"), addr("/ip4/192.168.0.2/tcp/9000"));
    let cmds = discovery_commands(&vec![(p1, a1.clone()), (p2, a2.clone())]);
    let expected = vec![
        SwarmCommand::AddPeerAddress(p1, a1.clone()),
        SwarmCommand::Dial(a1),
        SwarmCommand::AddPeerAddress(p2, a2.clone()),
        SwarmCommand::Dial(a2),
    ];
    assert_eq!(cmds.len(), expected.len());
    for (c, d) in cmds.iter().zip(expected.iter()) {
        assert!(same_command(c, d));
    }
}

#[test]
fn only_discovery_calls_for_commands() {
    let p = peer();
    let a = addr("/ip4/192.168.0.1/tcp/9000");
    assert_eq!(BehaviourSignal::MdnsDiscovered(vec![(p, a.clone())]).handle().len(), 2);
    assert!(BehaviourSignal::MdnsDiscovered(vec![]).handle().is_empty());
    assert!(BehaviourSignal::MdnsExpired.handle().is_empty());
    assert!(BehaviourSignal::Autonat.handle().is_empty());
    assert!(BehaviourSignal::Identify.handle().is_empty());
    assert!(BehaviourSignal::Ping.handle().is_empty());
}

#[test]
fn cancellation_shuts_the_loop_down() {
    let mut s = NodeLoop::new();
    assert!(matches!(s.step(NodeEvent::Cancelled), NodeAction::Shutdown));
    assert!(s.stopped);
}

#[test]
fn closed_listener_shuts_the_loop_down() {
    let mut s = NodeLoop::new();
    assert!(matches!(s.step(NodeEvent::IncomingClosed), NodeAction::Shutdown));
    assert!(s.stopped);
}

#[test]
fn incoming_streams_start_tasks_that_are_counted() {
    let p = peer();
    let mut s = NodeLoop::new();
    match s.step(NodeEvent::IncomingStream(p)) {
        NodeAction::SpawnStreamHandler(q) => assert_eq!(q, p),
        _ => panic!("expected a spawned handler"),
    }
    assert!(matches!(s.step(NodeEvent::IncomingStream(p)), NodeAction::SpawnStreamHandler(_)));
    assert_eq!(s.pending_streams, 2);
    assert!(matches!(
        s.step(NodeEvent::StreamTaskFinished(StreamTaskOutcome::Failed(StreamError::Read))),
        NodeAction::Continue
    ));
    assert!(matches!(
        s.step(NodeEvent::StreamTaskFinished(StreamTaskOutcome::Completed)),
        NodeAction::Continue
    ));
    assert_eq!(s.pending_streams, 0);
    assert!(!s.stopped);
}

#[test]
fn swarm_events_are_passed_over() {
    let p = peer();
    let mut s = NodeLoop::new();
    for e in [
        NodeEvent::NewListenAddr,
        NodeEvent::ExternalAddrConfirmed,
        NodeEvent::ConnectionEstablished(p),
        NodeEvent::ConnectionClosed(p),
        NodeEvent::OtherSwarmEvent,
        NodeEvent::Behaviour(BehaviourSignal::Ping),
    ] {
        let a = s.step(e);
        assert!(matches!(a, NodeAction::Continue) || matches!(a, NodeAction::Execute(ref c) if c.is_empty()));
    }
    assert!(!s.stopped);
    assert_eq!(s.pending_streams, 0);
}

#[test]
fn behaviour_discovery_is_executed() {
    let p = peer();
    let a = addr("/ip4/192.168.0.1/tcp/9000");
    let mut s = NodeLoop::new();
    match s.step(NodeEvent::Behaviour(BehaviourSignal::MdnsDiscovered(vec![(p, a.clone())]))) {
        NodeAction::Execute(cmds) => {
            assert_eq!(cmds.len(), 2);
            assert!(same_command(&cmds[0], &SwarmCommand::AddPeerAddress(p, a.clone())));
            assert!(same_command(&cmds[1], &SwarmCommand::Dial(a)));
        }
        _ => panic!("expected commands"),
    }
}

#[test]
fn stream_lines_are_forwarded_or_end_the_task() {
    assert_eq!(on_line(LineEvent::Decoded), LineAction::Forward);
    assert_eq!(on_line(LineEvent::Undecodable), LineAction::Fail(StreamError::Decode));
    assert_eq!(on_line(LineEvent::ReadFailed), LineAction::Fail(StreamError::Read));
    assert_eq!(on_line(LineEvent::Exhausted), LineAction::ReadNext);
}

#[test]
fn flashblocks_args_defaults() {
    let a = FlashblocksArgs::default();
    assert!(!a.flashblocks);
    assert_eq!(a.flashblocks_p2p_port, 9000);
    assert_eq!(
        a.flashblocks_known_peers,
        "/ip4/127.0.0.1/tcp/9001/p2p/12D3KooW9sn2ZidTANAmQB1paiKBPGkF5DVusZXxaZCapbW94G44"
    );
    assert_eq!(a.flashblocks_host, "127.0.0.1");
    assert_eq!(a.flashblocks_port, 1112);
}

#[test]
fn node_parameters() {
    assert_eq!(DEFAULT_MAX_PEER_COUNT, 200);
    assert_eq!(PROTOCOL_VERSION, "1.0.0");
    assert_eq!(DEFAULT_AGENT_VERSION, "rollup-boost/1.0.0");
    assert_eq!(FLASHBLOCKS_STREAM_PROTOCOL, "/flashblocks/1.0.0");
    assert_eq!(PING_INTERVAL_SECS, 10);
    assert_eq!(TRANSPORT_TIMEOUT_SECS, 20);
    assert_eq!(IDLE_CONNECTION_TIMEOUT_SECS, u64::MAX);
    assert_eq!(PAYLOAD_CHANNEL_CAPACITY, 100);
}

#[test]
fn stream_forwards_decoded_payloads_until_the_first_failure() {
    let reads = [
        LineEvent::Decoded,
        LineEvent::Exhausted,
        LineEvent::Decoded,
        LineEvent::Undecodable,
        LineEvent::Decoded,
    ];
    let mut forwarded = Vec::new();
    let mut end = None;
    for (i, e) in reads.iter().enumerate() {
        match on_line(*e) {
            LineAction::Forward => forwarded.push(i),
            LineAction::Fail(err) => {
                end = Some(err);
                break;
            }
            LineAction::ReadNext => {}
        }
    }
    assert_eq!(forwarded, vec![0, 2]);
    assert_eq!(end, Some(StreamError::Decode));
}
