//! Properties of the node that span several functions or calls.
use crate::addr::{any_ip4_tcp_parts, lemma_any_ip4_tcp_parts_port, tcp_port_of, ends_with_peer, multiaddr_parts, route_of, with_peer_parts, AddrPart};
use crate::builder::{default_listen_addr, NodeSettingsView};
use crate::node::{
    action_for, behaviour_plan, BehaviourSignal, NodeAction,
    discovery_plan, event_allowed, is_shutdown_event, loop_after, CommandView, NodeEvent, NodeLoop,
};
use crate::stream::{line_action, LineAction, LineEvent, StreamError};
use vstd::prelude::*;

verus! {

/// An address that does not end in a peer id, once given a peer id, is
/// split back into that peer id and the same address.
pub proof fn lemma_with_peer_then_route(parts: Seq<AddrPart>, peer: libp2p::PeerId)
    requires
        !ends_with_peer(parts),
    ensures
        with_peer_parts(parts, peer) == Some(parts.push(AddrPart::Peer(peer))),
        route_of(parts.push(AddrPart::Peer(peer))) == Some((peer, parts)),
{
    assert(parts.push(AddrPart::Peer(peer)).drop_last() =~= parts);
}

/// Giving an address the same peer id twice changes nothing the second
/// time.
pub proof fn lemma_with_peer_idempotent(parts: Seq<AddrPart>, peer: libp2p::PeerId)
    requires
        with_peer_parts(parts, peer) is Some,
    ensures
        with_peer_parts(with_peer_parts(parts, peer)->Some_0, peer) == with_peer_parts(parts, peer),
{
}

/// The addresses a node publishes (its listen addresses with its peer id),
/// given to another node as known peers, are each split back into the
/// publishing node's peer id and the listen address, where that listen
/// address does not already end in a peer id.
pub proof fn lemma_published_addrs_route_back(s: NodeSettingsView, published: Seq<libp2p::Multiaddr>)
    requires
        published.len() == s.listen_addrs.len(),
        forall|i: int|
            0 <= i < s.listen_addrs.len() ==> with_peer_parts(
                multiaddr_parts(s.listen_addrs[i]),
                s.peer_id,
            ) == Some(multiaddr_parts(#[trigger] published[i])),
    ensures
        forall|i: int|
            0 <= i < s.listen_addrs.len() && !ends_with_peer(multiaddr_parts(s.listen_addrs[i]))
                ==> route_of(multiaddr_parts(#[trigger] published[i])) == Some(
                (s.peer_id, multiaddr_parts(s.listen_addrs[i])),
            ),
        forall|i: int|
            0 <= i < s.listen_addrs.len() ==> (#[trigger] route_of(multiaddr_parts(published[i])))
                is Some && route_of(multiaddr_parts(published[i]))->Some_0.0 == s.peer_id,
{
    assert forall|i: int|
        0 <= i < s.listen_addrs.len() && !ends_with_peer(
            multiaddr_parts(s.listen_addrs[i]),
        ) implies route_of(multiaddr_parts(#[trigger] published[i])) == Some(
        (s.peer_id, multiaddr_parts(s.listen_addrs[i])),
    ) by {
        lemma_with_peer_then_route(multiaddr_parts(s.listen_addrs[i]), s.peer_id);
    }
    assert forall|i: int| 0 <= i < s.listen_addrs.len() implies (#[trigger] route_of(
        multiaddr_parts(published[i]),
    )) is Some && route_of(multiaddr_parts(published[i]))->Some_0.0 == s.peer_id by {
        let parts = multiaddr_parts(s.listen_addrs[i]);
        if !ends_with_peer(parts) {
            lemma_with_peer_then_route(parts, s.peer_id);
        }
        assert(with_peer_parts(parts, s.peer_id) == Some(multiaddr_parts(published[i])));
    }
}

/// The default listen address takes any peer id: publishing it never
/// fails, and gives the address with the peer id appended.
pub proof fn lemma_default_listen_addr_takes_peer(
    port: Option<u16>,
    addr: libp2p::Multiaddr,
    peer: libp2p::PeerId,
)
    requires
        default_listen_addr(port, addr),
    ensures
        with_peer_parts(multiaddr_parts(addr), peer) == Some(
            multiaddr_parts(addr).push(AddrPart::Peer(peer)),
        ),
{
}

/// For each discovered peer `i`, command `2 i` records its address and
/// command `2 i + 1` dials it; there are no other commands.
pub proof fn lemma_discovery_plan_positions(found: Seq<(libp2p::PeerId, Seq<AddrPart>)>)
    ensures
        discovery_plan(found).len() == 2 * found.len(),
        forall|i: int|
            0 <= i < found.len() ==> discovery_plan(found)[2 * i] == CommandView::AddPeerAddress(
                (#[trigger] found[i]).0,
                found[i].1,
            ) && discovery_plan(found)[2 * i + 1] == CommandView::Dial(found[i].1),
    decreases found.len(),
{
    if found.len() > 0 {
        let prev = found.drop_last();
        lemma_discovery_plan_positions(prev);
        assert forall|i: int| 0 <= i < found.len() implies discovery_plan(found)[2 * i]
            == CommandView::AddPeerAddress((#[trigger] found[i]).0, found[i].1) && discovery_plan(
            found,
        )[2 * i + 1] == CommandView::Dial(found[i].1) by {
            if i < found.len() - 1 {
                assert(prev[i] == found[i]);
            }
        }
    }
}

/// The default listen address carries the port set on the builder, or 0
/// when none was set, whatever the port.
pub proof fn lemma_default_listen_addr_port(port: Option<u16>, addr: libp2p::Multiaddr)
    requires
        default_listen_addr(port, addr),
    ensures
        port matches Some(p) ==> multiaddr_parts(addr) == any_ip4_tcp_parts(p) && tcp_port_of(
            multiaddr_parts(addr),
        ) == p,
        port is None ==> multiaddr_parts(addr) == any_ip4_tcp_parts(0u16) && tcp_port_of(
            multiaddr_parts(addr),
        ) == 0,
{
    match port {
        Some(p) => lemma_any_ip4_tcp_parts_port(p),
        None => lemma_any_ip4_tcp_parts_port(0u16),
    }
}

/// Peers found on the local network call for two commands each, for every
/// one of them: command `2 i` records the address of peer `i`, command
/// `2 i + 1` dials that address. Every other behaviour event calls for no
/// command.
pub proof fn lemma_behaviour_commands(signal: BehaviourSignal)
    ensures
        signal matches BehaviourSignal::MdnsDiscovered(found) ==> behaviour_plan(signal).len() == 2
            * found.len(),
        signal matches BehaviourSignal::MdnsDiscovered(found) ==> forall|i: int|
            0 <= i < found.len() ==> behaviour_plan(signal)[2 * i] == CommandView::AddPeerAddress(
                (#[trigger] found[i]).0,
                multiaddr_parts(found[i].1),
            ) && behaviour_plan(signal)[2 * i + 1] == CommandView::Dial(multiaddr_parts(found[i].1)),
        !(signal is MdnsDiscovered) ==> behaviour_plan(signal).len() == 0,
{
    if let BehaviourSignal::MdnsDiscovered(found) = signal {
        let pv = crate::node::peers_view(found@);
        lemma_discovery_plan_positions(pv);
        assert forall|i: int| 0 <= i < found.len() implies behaviour_plan(signal)[2 * i]
            == CommandView::AddPeerAddress((#[trigger] found[i]).0, multiaddr_parts(found[i].1))
            && behaviour_plan(signal)[2 * i + 1] == CommandView::Dial(multiaddr_parts(found[i].1)) by {
            assert(pv[i] == (found[i].0, multiaddr_parts(found[i].1)));
        }
    }
}

/// The loop stops exactly on a cancellation or on the close of the
/// incoming stream listener; the end of a stream-reading task, whatever
/// its outcome, leaves it running with nothing to do; every event of the
/// behaviours leaves it running and calls for their commands; an incoming
/// stream starts a task for its peer.
pub proof fn lemma_loop_decisions(s: NodeLoop, e: NodeEvent, a: NodeAction)
    requires
        action_for(e, a),
    ensures
        a is Shutdown <==> (e is Cancelled || e is IncomingClosed),
        loop_after(s, e).stopped <==> (s.stopped || e is Cancelled || e is IncomingClosed),
        e is StreamTaskFinished ==> a is Continue,
        e is Behaviour ==> a is Execute,
        e matches NodeEvent::IncomingStream(peer) ==> a == NodeAction::SpawnStreamHandler(peer),
{
}

/// The loop's state after a sequence of events.
pub open spec fn run_loop(s: NodeLoop, events: Seq<NodeEvent>) -> NodeLoop
    decreases events.len(),
{
    if events.len() == 0 {
        s
    } else {
        loop_after(run_loop(s, events.drop_last()), events.last())
    }
}

/// Every event of the sequence is one the loop can receive when it comes.
pub open spec fn run_allowed(s: NodeLoop, events: Seq<NodeEvent>) -> bool {
    forall|i: int|
        0 <= i < events.len() ==> event_allowed(run_loop(s, events.take(i)), #[trigger] events[i])
}

/// How many events of the sequence are incoming streams.
pub open spec fn count_streams_started(events: Seq<NodeEvent>) -> nat
    decreases events.len(),
{
    if events.len() == 0 {
        0
    } else {
        count_streams_started(events.drop_last()) + if events.last() is IncomingStream {
            1nat
        } else {
            0nat
        }
    }
}

/// How many events of the sequence are ends of stream tasks.
pub open spec fn count_streams_finished(events: Seq<NodeEvent>) -> nat
    decreases events.len(),
{
    if events.len() == 0 {
        0
    } else {
        count_streams_finished(events.drop_last()) + if events.last() is StreamTaskFinished {
            1nat
        } else {
            0nat
        }
    }
}

/// Over any run of the loop, the pending stream tasks are those started
/// less those that ended; the loop stops only on its last event, and then
/// exactly when that event is a cancellation or the close of the incoming
/// stream listener.
pub proof fn lemma_loop_run(s: NodeLoop, events: Seq<NodeEvent>)
    requires
        run_allowed(s, events),
    ensures
        run_loop(s, events).pending_streams + count_streams_finished(events) == s.pending_streams
            + count_streams_started(events),
        forall|i: int| 0 <= i < events.len() - 1 ==> !is_shutdown_event(#[trigger] events[i]),
        events.len() > 0 ==> (run_loop(s, events).stopped <==> is_shutdown_event(events.last())),
    decreases events.len(),
{
    if events.len() > 0 {
        let prev = events.drop_last();
        assert forall|i: int| 0 <= i < prev.len() implies event_allowed(
            run_loop(s, prev.take(i)),
            #[trigger] prev[i],
        ) by {
            assert(prev.take(i) =~= events.take(i));
            assert(events[i] == prev[i]);
        }
        lemma_loop_run(s, prev);
        let n = events.len() - 1;
        assert(events.take(n) =~= prev);
        assert(event_allowed(run_loop(s, events.take(n)), events[n]));
        assert forall|i: int| 0 <= i < events.len() - 1 implies !is_shutdown_event(
            #[trigger] events[i],
        ) by {
            assert(events.take(i + 1) =~= events.take(i).push(events[i]));
            assert(events.take(i + 1).drop_last() =~= events.take(i));
            assert(event_allowed(run_loop(s, events.take(i + 1)), events[i + 1]));
            if i + 1 < n {
                assert(prev.take(i + 1) =~= events.take(i + 1));
            }
            assert(run_loop(s, events.take(i + 1)) == loop_after(
                run_loop(s, events.take(i)),
                events[i],
            ));
        }
    }
}

/// Whether a read ends the stream task: an undecodable line or a failed
/// read.
pub open spec fn is_failure(e: LineEvent) -> bool {
    e is Undecodable || e is ReadFailed
}

/// The error a failing read ends the task with.
pub open spec fn failure_error(e: LineEvent) -> StreamError {
    if e is Undecodable {
        StreamError::Decode
    } else {
        StreamError::Read
    }
}

/// What a stream task does over its successive reads, taking the action
/// `on_line` gives for each: the positions of the reads whose payload it
/// forwards, in the order it forwards them, and the error it has ended
/// with, if it has. Reads after the end are not taken.
pub open spec fn stream_run(events: Seq<LineEvent>) -> (Seq<int>, Option<StreamError>)
    decreases events.len(),
{
    if events.len() == 0 {
        (Seq::empty(), None)
    } else {
        let (forwarded, end) = stream_run(events.drop_last());
        if end is Some {
            (forwarded, end)
        } else {
            match line_action(events.last()) {
                LineAction::Forward => (forwarded.push(events.len() - 1), None),
                LineAction::Fail(e) => (forwarded, Some(e)),
                LineAction::ReadNext => (forwarded, None),
            }
        }
    }
}

/// The position of the first failing read, or the number of reads where
/// none fails.
pub open spec fn first_failure(events: Seq<LineEvent>) -> int
    decreases events.len(),
{
    if events.len() == 0 {
        0
    } else {
        let f = first_failure(events.drop_last());
        if f < events.len() - 1 {
            f
        } else if is_failure(events.last()) {
            events.len() - 1
        } else {
            events.len() as int
        }
    }
}

/// `forwarded` lists, in increasing order and once each, exactly the
/// positions before `limit` whose read decoded a payload.
pub open spec fn forwards_decoded_before(
    events: Seq<LineEvent>,
    forwarded: Seq<int>,
    limit: int,
) -> bool {
    &&& forall|j: int|
        0 <= j < forwarded.len() ==> 0 <= #[trigger] forwarded[j] < limit && events[forwarded[j]]
            is Decoded
    &&& forall|i: int| 0 <= i < limit && (#[trigger] events[i]) is Decoded ==> forwarded.contains(i)
    &&& forall|a: int, b: int| 0 <= a < b < forwarded.len() ==> forwarded[a] < forwarded[b]
}

/// Over any sequence of reads, a stream task forwards every decoded
/// payload, in order, up to the first undecodable line or failed read; it
/// ends exactly there, with the error of that read, and it never ends
/// without an error: when no read fails, it forwards every decoded payload
/// and reads on.
pub proof fn lemma_stream_run(events: Seq<LineEvent>)
    ensures
        0 <= first_failure(events) <= events.len(),
        forall|j: int| 0 <= j < first_failure(events) ==> !is_failure(#[trigger] events[j]),
        first_failure(events) < events.len() ==> is_failure(events[first_failure(events)]),
        stream_run(events).1 == if first_failure(events) < events.len() {
            Some(failure_error(events[first_failure(events)]))
        } else {
            None
        },
        forwards_decoded_before(events, stream_run(events).0, first_failure(events)),
    decreases events.len(),
{
    if events.len() > 0 {
        let prev = events.drop_last();
        let n = events.len() - 1;
        lemma_stream_run(prev);
        assert(forall|i: int| 0 <= i < n ==> prev[i] == events[i]);
        let (fwd, end) = stream_run(prev);
        let k = first_failure(prev);
        if k < n {
            assert(forwards_decoded_before(events, fwd, k));
        } else {
            let last = events[n];
            assert(last == events.last());
            if last is Decoded {
                let f2 = fwd.push(n);
                assert forall|i: int| 0 <= i < n + 1 && (#[trigger] events[i]) is Decoded implies f2.contains(
                    i,
                ) by {
                    if i < n {
                        assert(fwd.contains(i));
                        let j = choose|j: int| 0 <= j < fwd.len() && fwd[j] == i;
                        assert(f2[j] == i);
                    } else {
                        assert(f2[fwd.len() as int] == n);
                    }
                }
                assert forall|j: int| 0 <= j < f2.len() implies 0 <= #[trigger] f2[j] < n + 1
                    && events[f2[j]] is Decoded by {
                    if j < fwd.len() {
                        assert(f2[j] == fwd[j]);
                    }
                }
                assert(forwards_decoded_before(events, f2, n + 1));
            } else {
                assert(forwards_decoded_before(events, fwd, n));
                assert forall|i: int| 0 <= i < n + 1 && (#[trigger] events[i]) is Decoded implies fwd.contains(
                    i,
                ) by {
                    if i < n {
                    }
                }
            }
        }
    }
}

} // verus!
