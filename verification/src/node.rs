//! The decisions of the node's event loop: what it does with each event of
//! the swarm, of the incoming stream listener, and of the tasks that read
//! incoming streams. The loop itself, which waits for the events and
//! carries out the actions, runs in `app/`.
use crate::addr::{multiaddr_parts, AddrPart};
use crate::stream::StreamError;
use vstd::prelude::*;

verus! {

/// A command the node gives its swarm.
pub enum SwarmCommand {
    /// Record an address at which a peer can be reached.
    AddPeerAddress(libp2p::PeerId, libp2p::Multiaddr),
    /// Dial an address.
    Dial(libp2p::Multiaddr),
}

/// A swarm command as the contracts see it: addresses by their components.
pub enum CommandView {
    AddPeerAddress(libp2p::PeerId, Seq<AddrPart>),
    Dial(Seq<AddrPart>),
}

pub open spec fn command_view(c: SwarmCommand) -> CommandView {
    match c {
        SwarmCommand::AddPeerAddress(p, a) => CommandView::AddPeerAddress(p, multiaddr_parts(a)),
        SwarmCommand::Dial(a) => CommandView::Dial(multiaddr_parts(a)),
    }
}

pub open spec fn commands_view(cs: Seq<SwarmCommand>) -> Seq<CommandView> {
    cs.map_values(|c: SwarmCommand| command_view(c))
}

/// Discovered peers as the contracts see them.
pub open spec fn peers_view(found: Seq<(libp2p::PeerId, libp2p::Multiaddr)>) -> Seq<
    (libp2p::PeerId, Seq<AddrPart>),
> {
    found.map_values(|f: (libp2p::PeerId, libp2p::Multiaddr)| (f.0, multiaddr_parts(f.1)))
}

/// For each discovered peer in turn: record its address, then dial it.
pub open spec fn discovery_plan(found: Seq<(libp2p::PeerId, Seq<AddrPart>)>) -> Seq<CommandView>
    decreases found.len(),
{
    if found.len() == 0 {
        Seq::empty()
    } else {
        let last = found.last();
        discovery_plan(found.drop_last()) + seq![
            CommandView::AddPeerAddress(last.0, last.1),
            CommandView::Dial(last.1),
        ]
    }
}

/// The commands for peers found on the local network: each peer's address
/// is recorded and then dialled, peer after peer.
pub fn discovery_commands(found: &Vec<(libp2p::PeerId, libp2p::Multiaddr)>) -> (cmds: Vec<
    SwarmCommand,
>)
    ensures
        commands_view(cmds@) == discovery_plan(peers_view(found@)),
        cmds.len() == 2 * found.len(),
        forall|i: int|
            #![trigger found[i]]
            #![trigger cmds[2 * i]]
            0 <= i < found.len() ==> (cmds[2 * i] is AddPeerAddress && cmds[2 * i]->AddPeerAddress_0
                == found[i].0 && multiaddr_parts(cmds[2 * i]->AddPeerAddress_1) == multiaddr_parts(found[i].1)),
        forall|i: int|
            #![trigger found[i]]
            #![trigger cmds[2 * i + 1]]
            0 <= i < found.len() ==> (cmds[2 * i + 1] is Dial && multiaddr_parts(
                cmds[2 * i + 1]->Dial_0,
            ) == multiaddr_parts(found[i].1)),
{
    let mut cmds: Vec<SwarmCommand> = Vec::new();
    let mut i: usize = 0;
    proof {
        assert(peers_view(found@).take(0) =~= Seq::<(libp2p::PeerId, Seq<AddrPart>)>::empty());
        assert(commands_view(cmds@) =~= Seq::<CommandView>::empty());
    }
    while i < found.len()
        invariant
            i <= found.len(),
            commands_view(cmds@) == discovery_plan(peers_view(found@).take(i as int)),
        decreases found.len() - i,
    {
        let peer = found[i].0;
        let add = SwarmCommand::AddPeerAddress(peer, found[i].1.clone());
        let dial = SwarmCommand::Dial(found[i].1.clone());
        let ghost before = cmds@;
        cmds.push(add);
        cmds.push(dial);
        proof {
            let pv = peers_view(found@);
            assert(pv.take(i + 1).drop_last() =~= pv.take(i as int));
            assert(pv.take(i + 1).last() == pv[i as int]);
            assert(cmds@ =~= before + seq![add, dial]);
            assert(commands_view(cmds@) =~= commands_view(before) + seq![
                command_view(add),
                command_view(dial),
            ]);
        }
        i = i + 1;
    }
    proof {
        assert(peers_view(found@).take(found.len() as int) =~= peers_view(found@));
        let pv = peers_view(found@);
        crate::laws::lemma_discovery_plan_positions(pv);
        assert forall|i: int| #![trigger found[i]] #![trigger cmds[2 * i]] 0 <= i < found.len() implies (cmds[2 * i] is AddPeerAddress && cmds[2 * i]->AddPeerAddress_0
            == found[i].0 && multiaddr_parts(cmds[2 * i]->AddPeerAddress_1) == multiaddr_parts(found[i].1)) by {
            assert(pv[i] == (found[i].0, multiaddr_parts(found[i].1)));
            assert(commands_view(cmds@)[2 * i] == command_view(cmds@[2 * i]));
        }
        assert forall|i: int| #![trigger found[i]] #![trigger cmds[2 * i + 1]] 0 <= i < found.len() implies (cmds[2 * i + 1] is Dial
            && multiaddr_parts(cmds[2 * i + 1]->Dial_0) == multiaddr_parts(found[i].1)) by {
            assert(pv[i] == (found[i].0, multiaddr_parts(found[i].1)));
            assert(commands_view(cmds@)[2 * i + 1] == command_view(cmds@[2 * i + 1]));
        }
    }
    cmds
}

/// An event of the node's network behaviours.
pub enum BehaviourSignal {
    Autonat,
    Identify,
    /// Peers found on the local network, each with an address.
    MdnsDiscovered(Vec<(libp2p::PeerId, libp2p::Multiaddr)>),
    /// Peers whose local-network record expired.
    MdnsExpired,
    Ping,
}

/// The commands an event of the behaviours calls for: only peers found on
/// the local network are acted on.
pub open spec fn behaviour_plan(signal: BehaviourSignal) -> Seq<CommandView> {
    match signal {
        BehaviourSignal::MdnsDiscovered(found) => discovery_plan(peers_view(found@)),
        _ => Seq::empty(),
    }
}

impl BehaviourSignal {
    /// The commands this event calls for.
    pub fn handle(&self) -> (cmds: Vec<SwarmCommand>)
        ensures
            commands_view(cmds@) == behaviour_plan(*self),
            !(*self is MdnsDiscovered) ==> cmds.len() == 0,
            *self matches BehaviourSignal::MdnsDiscovered(found) ==> cmds.len() == 2 * found.len(),
            *self matches BehaviourSignal::MdnsDiscovered(found) ==> forall|i: int|
            #![trigger found[i]]
            #![trigger cmds[2 * i]]
                0 <= i < found.len() ==> (cmds[2 * i] is AddPeerAddress && cmds[2 * i]->AddPeerAddress_0
                    == found[i].0 && multiaddr_parts(cmds[2 * i]->AddPeerAddress_1) == multiaddr_parts(found[i].1)),
            *self matches BehaviourSignal::MdnsDiscovered(found) ==> forall|i: int|
            #![trigger found[i]]
            #![trigger cmds[2 * i + 1]]
                0 <= i < found.len() ==> (cmds[2 * i + 1] is Dial
                    && multiaddr_parts(cmds[2 * i + 1]->Dial_0) == multiaddr_parts(found[i].1)),
    {
        match self {
            BehaviourSignal::MdnsDiscovered(found) => discovery_commands(found),
            _ => {
                let cmds: Vec<SwarmCommand> = Vec::new();
                assert(commands_view(cmds@) =~= Seq::<CommandView>::empty());
                cmds
            },
        }
    }
}

/// How a task that read an incoming stream ended.
pub enum StreamTaskOutcome {
    /// The handler returned without an error.
    Completed,
    /// The handler returned an error.
    Failed(StreamError),
    /// The task itself failed (it panicked or was cancelled).
    Aborted,
}

/// An event the node's loop waits for.
pub enum NodeEvent {
    /// The cancellation token was cancelled.
    Cancelled,
    /// The swarm listens on a new address.
    NewListenAddr,
    /// An external address of the node was confirmed.
    ExternalAddrConfirmed,
    /// A connection with a peer was established.
    ConnectionEstablished(libp2p::PeerId),
    /// A connection with a peer was closed.
    ConnectionClosed(libp2p::PeerId),
    /// An event of the network behaviours.
    Behaviour(BehaviourSignal),
    /// Any other event of the swarm.
    OtherSwarmEvent,
    /// A peer opened a Flashblocks stream.
    IncomingStream(libp2p::PeerId),
    /// The listener for incoming streams closed.
    IncomingClosed,
    /// A task that read an incoming stream ended.
    StreamTaskFinished(StreamTaskOutcome),
}

/// What the loop does next.
pub enum NodeAction {
    /// Stop the node, successfully.
    Shutdown,
    /// Give the swarm these commands, in order.
    Execute(Vec<SwarmCommand>),
    /// Start a task that reads the stream opened by this peer.
    SpawnStreamHandler(libp2p::PeerId),
    /// Nothing to do; wait for the next event.
    Continue,
}

/// The state of the node's loop.
pub struct NodeLoop {
    /// Whether the loop has stopped.
    pub stopped: bool,
    /// How many stream-reading tasks were started and have not ended.
    pub pending_streams: usize,
}

/// Whether the event ends the loop.
pub open spec fn is_shutdown_event(e: NodeEvent) -> bool {
    e is Cancelled || e is IncomingClosed
}

/// Events that the loop can receive in a state: none once it has stopped,
/// the end of a stream task only while one is pending, and a new stream
/// only while the count of pending tasks can grow.
pub open spec fn event_allowed(s: NodeLoop, e: NodeEvent) -> bool {
    &&& !s.stopped
    &&& e is StreamTaskFinished ==> s.pending_streams > 0
    &&& e is IncomingStream ==> s.pending_streams < usize::MAX
}

/// The state after an event.
pub open spec fn loop_after(s: NodeLoop, e: NodeEvent) -> NodeLoop {
    if is_shutdown_event(e) {
        NodeLoop { stopped: true, pending_streams: s.pending_streams }
    } else if e is IncomingStream {
        NodeLoop { stopped: s.stopped, pending_streams: (s.pending_streams + 1) as usize }
    } else if e is StreamTaskFinished {
        NodeLoop { stopped: s.stopped, pending_streams: (s.pending_streams - 1) as usize }
    } else {
        s
    }
}

/// The action an event calls for.
pub open spec fn action_for(e: NodeEvent, a: NodeAction) -> bool {
    match e {
        NodeEvent::Cancelled => a is Shutdown,
        NodeEvent::IncomingClosed => a is Shutdown,
        NodeEvent::IncomingStream(peer) => a == NodeAction::SpawnStreamHandler(peer),
        NodeEvent::Behaviour(signal) => a matches NodeAction::Execute(cmds) && commands_view(cmds@)
            == behaviour_plan(signal),
        _ => a is Continue,
    }
}

impl NodeLoop {
    /// A loop that runs and has started no stream task.
    pub fn new() -> (s: Self)
        ensures
            !s.stopped,
            s.pending_streams == 0,
    {
        NodeLoop { stopped: false, pending_streams: 0 }
    }

    /// Takes one event: stops on cancellation and when the incoming stream
    /// listener closes, starts a reading task for each incoming stream,
    /// carries out what the behaviours call for, and otherwise waits on.
    pub fn step(&mut self, event: NodeEvent) -> (action: NodeAction)
        requires
            event_allowed(*old(self), event),
        ensures
            *final(self) == loop_after(*old(self), event),
            action_for(event, action),
            action is Shutdown <==> (event is Cancelled || event is IncomingClosed),
            final(self).stopped <==> (event is Cancelled || event is IncomingClosed),
            event is StreamTaskFinished ==> action is Continue && final(self).pending_streams
                == old(self).pending_streams - 1,
            event matches NodeEvent::IncomingStream(peer) ==> action == NodeAction::SpawnStreamHandler(
                peer,
            ) && final(self).pending_streams == old(self).pending_streams + 1,
            !(event is StreamTaskFinished) && !(event is IncomingStream)
                ==> final(self).pending_streams == old(self).pending_streams,
            event matches NodeEvent::Behaviour(signal) ==> (action matches NodeAction::Execute(cmds)
                && (!(signal is MdnsDiscovered) ==> cmds.len() == 0) && (signal matches BehaviourSignal::MdnsDiscovered(found) ==> cmds.len() == 2 * found.len() && (forall|i: int|
            #![trigger found[i]]
            #![trigger cmds[2 * i]]
                0 <= i < found.len() ==> (cmds[2 * i] is AddPeerAddress && cmds[2 * i]->AddPeerAddress_0
                    == found[i].0 && multiaddr_parts(cmds[2 * i]->AddPeerAddress_1) == multiaddr_parts(found[i].1)))
                && (forall|i: int|
            #![trigger found[i]]
            #![trigger cmds[2 * i + 1]]
                0 <= i < found.len() ==> (cmds[2 * i + 1] is Dial
                    && multiaddr_parts(cmds[2 * i + 1]->Dial_0) == multiaddr_parts(found[i].1))))),
            (event is Cancelled || event is IncomingClosed || event is NewListenAddr
                || event is ExternalAddrConfirmed || event is ConnectionEstablished
                || event is ConnectionClosed || event is OtherSwarmEvent || event is StreamTaskFinished)
                ==> !(action is Execute) && !(action is SpawnStreamHandler),
    {
        match event {
            NodeEvent::Cancelled => {
                self.stopped = true;
                NodeAction::Shutdown
            },
            NodeEvent::IncomingClosed => {
                self.stopped = true;
                NodeAction::Shutdown
            },
            NodeEvent::IncomingStream(peer) => {
                self.pending_streams = self.pending_streams + 1;
                NodeAction::SpawnStreamHandler(peer)
            },
            NodeEvent::StreamTaskFinished(_) => {
                self.pending_streams = self.pending_streams - 1;
                NodeAction::Continue
            },
            NodeEvent::Behaviour(signal) => NodeAction::Execute(signal.handle()),
            _ => NodeAction::Continue,
        }
    }
}

} // verus!
