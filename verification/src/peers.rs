//! The desktop client's registry of WebRTC peer connections: at most one
//! connection per peer, each tagged with the id it was created under, and the
//! ICE candidates that arrived before the peer's remote description.
use vstd::prelude::*;
use vstd::string::*;
use std::collections::HashMap;
use crate::models::{ClientEvent, IceCandidate, Id};

verus! {

broadcast use vstd::std_specs::hash::group_hash_axioms;

/// Asks for the teardown of one specific connection to a peer.
///
/// The connection id tells an old connection's teardown apart from the
/// connection that may since have replaced it.
#[derive(Clone, Copy, Debug, PartialEq, Eq, Structural)]
pub struct PeerCleanupEvent {
    pub peer_id: Id,
    pub connection_id: Id,
}

/// States that a peer connection reports.
#[derive(Clone, Copy, Debug, PartialEq, Eq, Structural)]
pub enum PeerConnectionState {
    Unspecified,
    New,
    Connecting,
    Connected,
    Disconnected,
    Failed,
    Closed,
}

/// What the client does in answer to a connection state change.
#[derive(Clone, Copy, Debug, PartialEq, Eq, Structural)]
pub enum PeerAction {
    /// Queue the teardown of this connection.
    Cleanup(PeerCleanupEvent),
    /// Forget the data channel to this peer.
    RemoveDataChannel(Id),
}

/// The reaction to state `state` of connection `connection_id` to `peer_id`.
pub open spec fn spec_state_actions(
    peer_id: Id,
    connection_id: Id,
    state: PeerConnectionState,
) -> Seq<PeerAction> {
    let cleanup = PeerAction::Cleanup(PeerCleanupEvent { peer_id, connection_id });
    let remove = PeerAction::RemoveDataChannel(peer_id);
    match state {
        PeerConnectionState::Disconnected => seq![cleanup, remove],
        PeerConnectionState::Failed => seq![cleanup, remove],
        PeerConnectionState::Closed => seq![remove, cleanup],
        _ => seq![],
    }
}

/// The identity of one peer connection, as its event callbacks see it.
#[derive(Clone, Copy, Debug, PartialEq, Eq, Structural)]
pub struct PeerHandler {
    pub peer_id: Id,
    /// The id the connection was created under, telling it apart from a
    /// later connection to the same peer.
    pub connection_id: Id,
}

impl PeerHandler {
    /// Reacts to a state change of the connection: a lost, failed or closed
    /// connection is torn down and its data channel forgotten.
    pub fn on_connection_state_change(&self, state: PeerConnectionState) -> (actions: Vec<
        PeerAction,
    >)
        ensures
            actions@ == spec_state_actions(self.peer_id, self.connection_id, state),
    {
        let cleanup = PeerAction::Cleanup(
            PeerCleanupEvent { peer_id: self.peer_id, connection_id: self.connection_id },
        );
        let remove = PeerAction::RemoveDataChannel(self.peer_id);
        match state {
            PeerConnectionState::Disconnected => vec![cleanup, remove],
            PeerConnectionState::Failed => vec![cleanup, remove],
            PeerConnectionState::Closed => vec![remove, cleanup],
            _ => Vec::new(),
        }
    }

    /// The signalling message that hands a local ICE candidate to the peer.
    pub fn on_ice_candidate(&self, candidate: IceCandidate) -> (event: ClientEvent)
        ensures
            event == (ClientEvent::IceCandidate { to: self.peer_id, candidate }),
    {
        ClientEvent::IceCandidate { to: self.peer_id, candidate }
    }

    /// Whether an incoming data channel carries the chat: its label must be
    /// exactly `chat`.
    pub fn on_data_channel(&self, label: &String) -> (accepted: bool)
        ensures
            accepted == (label@ == "chat"@),
    {
        let chat = String::from_str("chat");
        *label == chat
    }
}

/// The answer to a request that names a peer without a connection.
pub open spec fn no_peer_message() -> Seq<char> {
    "No peer found!"@
}

/// Whether `event` names the connection that `peers` currently keeps.
pub open spec fn names_current<P>(peers: Map<Id, (P, Id)>, event: PeerCleanupEvent) -> bool {
    peers.contains_key(event.peer_id) && peers[event.peer_id].1 == event.connection_id
}

/// The connections kept after the teardown named by `event`.
pub open spec fn spec_cleanup_peers<P>(
    peers: Map<Id, (P, Id)>,
    event: PeerCleanupEvent,
) -> Map<Id, (P, Id)> {
    if names_current(peers, event) {
        peers.remove(event.peer_id)
    } else {
        peers
    }
}

/// The connections kept after registering `pc` under `connection_id`: the
/// first connection registered for a peer wins.
pub open spec fn spec_register<P>(
    peers: Map<Id, (P, Id)>,
    peer_id: Id,
    pc: P,
    connection_id: Id,
) -> Map<Id, (P, Id)> {
    if peers.contains_key(peer_id) {
        peers
    } else {
        peers.insert(peer_id, (pc, connection_id))
    }
}

/// The candidates held back for `peer`, empty when none are.
pub open spec fn held_for(pending: Map<Id, Seq<IceCandidate>>, peer: Id) -> Seq<IceCandidate> {
    if pending.contains_key(peer) {
        pending[peer]
    } else {
        Seq::empty()
    }
}

/// The candidates held back after holding back `candidate` for `peer`.
pub open spec fn spec_buffer(
    pending: Map<Id, Seq<IceCandidate>>,
    peer: Id,
    candidate: IceCandidate,
) -> Map<Id, Seq<IceCandidate>> {
    pending.insert(peer, held_for(pending, peer).push(candidate))
}

/// One step of answering a peer's offer.
#[derive(Clone, Debug, PartialEq, Eq)]
pub enum OfferStep {
    /// Set the offer as the connection's remote description.
    SetRemoteDescription(String),
    /// Add a candidate that arrived before the offer.
    AddCandidate(IceCandidate),
    /// Create the answer, set it as the local description and send it to
    /// the peer.
    CreateAnswer,
}

/// The steps of answering offer `sdp` while `held` candidates wait: first
/// the remote description, then the held candidates in the order they
/// arrived, then the answer.
pub open spec fn spec_offer_steps(sdp: String, held: Seq<IceCandidate>) -> Seq<OfferStep> {
    seq![OfferStep::SetRemoteDescription(sdp)] + held.map_values(
        |c: IceCandidate| OfferStep::AddCandidate(c),
    ) + seq![OfferStep::CreateAnswer]
}

/// A copy of `c`.
fn copy_candidate(c: &IceCandidate) -> (d: IceCandidate)
    ensures
        d == *c,
{
    IceCandidate {
        candidate: c.candidate.clone(),
        sdp_mid: match &c.sdp_mid {
            Some(m) => Some(m.clone()),
            None => None,
        },
        sdp_mline_index: c.sdp_mline_index,
        username_fragment: match &c.username_fragment {
            Some(u) => Some(u.clone()),
            None => None,
        },
    }
}

/// The label of the data channel that carries the chat, opened by the
/// offering side and the only one the answering side accepts.
pub fn chat_channel_label() -> (label: &'static str)
    ensures
        label@ == "chat"@,
{
    proof {
        reveal_strlit("chat");
    }
    "chat"
}

/// The signalling message that carries a local offer to the peer.
pub fn offer_event(peer_id: Id, sdp: String) -> (event: ClientEvent)
    ensures
        event == (ClientEvent::WebRtcOffer { to: peer_id, sdp }),
{
    ClientEvent::WebRtcOffer { to: peer_id, sdp }
}

/// The signalling message that carries a local answer to the peer.
pub fn answer_event(peer_id: Id, sdp: String) -> (event: ClientEvent)
    ensures
        event == (ClientEvent::WebRtcAnswer { to: peer_id, sdp }),
{
    ClientEvent::WebRtcAnswer { to: peer_id, sdp }
}

/// Live peer connections, by peer, and the candidates waiting for them.
pub struct WebRtcManager<P> {
    peers: HashMap<Id, (P, Id)>,
    pending_candidates: HashMap<Id, Vec<IceCandidate>>,
}

impl<P> WebRtcManager<P> {
    /// The connection to each peer, with the id it was created under.
    pub closed spec fn peers(&self) -> Map<Id, (P, Id)> {
        self.peers@
    }

    /// The candidates buffered for each peer, oldest first.
    pub closed spec fn pending(&self) -> Map<Id, Seq<IceCandidate>> {
        Map::new(
            |p: Id| self.pending_candidates@.contains_key(p),
            |p: Id| self.pending_candidates@[p]@,
        )
    }

    /// The candidates buffered for `peer`, empty when none are.
    pub open spec fn pending_of(&self, peer: Id) -> Seq<IceCandidate> {
        held_for(self.pending(), peer)
    }

    /// An empty table.
    pub fn new() -> (table: Self)
        ensures
            table.peers() == Map::<Id, (P, Id)>::empty(),
            table.pending() == Map::<Id, Seq<IceCandidate>>::empty(),
    {
        let t = WebRtcManager { peers: HashMap::new(), pending_candidates: HashMap::new() };
        assert(t.pending() =~= Map::<Id, Seq<IceCandidate>>::empty());
        t
    }

    /// The connection to `peer`, if there is one.
    pub fn get(&self, peer_id: Id) -> (pc: Option<&P>)
        ensures
            pc is Some <==> self.peers().contains_key(peer_id),
            pc matches Some(p) ==> *p == self.peers()[peer_id].0,
    {
        match self.peers.get(&peer_id) {
            Some(entry) => Some(&entry.0),
            None => None,
        }
    }

    /// The connection to `peer`, or the error that answers a request for a
    /// peer without one.
    pub fn lookup(&self, peer_id: Id) -> (pc: Result<&P, String>)
        ensures
            pc is Ok <==> self.peers().contains_key(peer_id),
            pc matches Ok(p) ==> *p == self.peers()[peer_id].0,
            pc matches Err(msg) ==> msg@ == no_peer_message(),
    {
        match self.peers.get(&peer_id) {
            Some(entry) => Ok(&entry.0),
            None => Err(String::from_str("No peer found!")),
        }
    }

    /// The id of the connection currently kept for `peer`.
    pub fn current_connection_id(&self, peer_id: Id) -> (id: Option<Id>)
        ensures
            id is Some <==> self.peers().contains_key(peer_id),
            id matches Some(c) ==> c == self.peers()[peer_id].1,
    {
        match self.peers.get(&peer_id) {
            Some(entry) => Some(entry.1),
            None => None,
        }
    }

    /// Keeps a freshly created connection unless one to the same peer was
    /// registered meanwhile, in which case the existing one wins. Returns
    /// whether the new connection was kept.
    pub fn register(&mut self, peer_id: Id, pc: P, connection_id: Id) -> (kept: bool)
        ensures
            kept == !old(self).peers().contains_key(peer_id),
            final(self).peers() == spec_register(old(self).peers(), peer_id, pc, connection_id),
            final(self).pending() == old(self).pending(),
    {
        if self.peers.contains_key(&peer_id) {
            false
        } else {
            self.peers.insert(peer_id, (pc, connection_id));
            true
        }
    }

    /// Tears down the connection named by `event`: the stored connection is
    /// removed (and returned, to be closed) only if it is still the one the
    /// event names; the candidates buffered for the peer are dropped in any
    /// case.
    pub fn cleanup_peer_connection(&mut self, event: PeerCleanupEvent) -> (removed: Option<P>)
        ensures
            final(self).peers() == spec_cleanup_peers(old(self).peers(), event),
            names_current(old(self).peers(), event) ==> removed == Some(
                old(self).peers()[event.peer_id].0,
            ),
            !names_current(old(self).peers(), event) ==> removed is None,
            final(self).pending() == old(self).pending().remove(event.peer_id),
    {
        let ghost old_pending = self.pending();
        let current = match self.peers.get(&event.peer_id) {
            Some(entry) => entry.1 == event.connection_id,
            None => false,
        };
        let removed = if current {
            match self.peers.remove(&event.peer_id) {
                Some(entry) => Some(entry.0),
                None => None,
            }
        } else {
            None
        };
        self.pending_candidates.remove(&event.peer_id);
        assert(self.pending() =~= old_pending.remove(event.peer_id));
        removed
    }

    /// Tears down whatever connection is current for `peer`; nothing changes
    /// when there is none. Returns the removed connection, to be closed.
    pub fn close_peer_connection_manual(&mut self, peer_id: Id) -> (removed: Option<P>)
        ensures
            old(self).peers().contains_key(peer_id) ==> removed == Some(
                old(self).peers()[peer_id].0,
            ) && final(self).peers() == old(self).peers().remove(peer_id) && final(self).pending()
                == old(self).pending().remove(peer_id),
            !old(self).peers().contains_key(peer_id) ==> removed is None && final(self).peers()
                == old(self).peers() && final(self).pending() == old(self).pending(),
    {
        match self.current_connection_id(peer_id) {
            Some(connection_id) => self.cleanup_peer_connection(PeerCleanupEvent { peer_id, connection_id }),
            None => None,
        }
    }

    /// Holds back a candidate that arrived before the peer's remote
    /// description, after those already held back.
    pub fn buffer_candidate(&mut self, peer_id: Id, candidate: IceCandidate)
        ensures
            final(self).peers() == old(self).peers(),
            final(self).pending() == spec_buffer(old(self).pending(), peer_id, candidate),
            final(self).pending_of(peer_id).len() == old(self).pending_of(peer_id).len() + 1,
            forall|i: int|
                0 <= i < old(self).pending_of(peer_id).len() ==> #[trigger] final(self).pending_of(
                    peer_id,
                )[i] == old(self).pending_of(peer_id)[i],
            final(self).pending_of(peer_id).last() == candidate,
            forall|other: Id|
                other != peer_id ==> #[trigger] final(self).pending_of(other) == old(
                    self,
                ).pending_of(other),
    {
        let ghost old_pending = self.pending();
        let mut held = match self.pending_candidates.remove(&peer_id) {
            Some(v) => v,
            None => Vec::new(),
        };
        held.push(candidate);
        self.pending_candidates.insert(peer_id, held);
        assert(self.pending() =~= old_pending.insert(peer_id, self.pending_of(peer_id)));
        proof {
            law_buffer_appends(old_pending, peer_id, candidate);
        }
    }

    /// Takes the candidates held back for `peer`, oldest first.
    pub fn take_pending(&mut self, peer_id: Id) -> (held: Vec<IceCandidate>)
        ensures
            held@ == old(self).pending_of(peer_id),
            final(self).peers() == old(self).peers(),
            final(self).pending() == old(self).pending().remove(peer_id),
    {
        let ghost old_pending = self.pending();
        let held = match self.pending_candidates.remove(&peer_id) {
            Some(v) => v,
            None => Vec::new(),
        };
        assert(self.pending() =~= old_pending.remove(peer_id));
        held
    }

    /// Answers offer `sdp` from `peer_id`: the steps to take on the peer's
    /// connection, in order. The held candidates stay held until the remote
    /// description is set; then `take_pending` drops them (a failed step
    /// keeps them, as nothing here changes).
    pub fn handle_offer(&self, peer_id: Id, sdp: String) -> (steps: Vec<OfferStep>)
        ensures
            steps@ == spec_offer_steps(sdp, self.pending_of(peer_id)),
            steps.len() == self.pending_of(peer_id).len() + 2,
            steps[0] == OfferStep::SetRemoteDescription(sdp),
            forall|i: int|
                0 <= i < self.pending_of(peer_id).len() ==> #[trigger] steps[i + 1]
                    == OfferStep::AddCandidate(self.pending_of(peer_id)[i]),
            steps[steps.len() - 1] == OfferStep::CreateAnswer,
    {
        let ghost all = self.pending_of(peer_id);
        let mut steps: Vec<OfferStep> = vec![OfferStep::SetRemoteDescription(sdp)];
        match self.pending_candidates.get(&peer_id) {
            Some(held) => {
                assert(held@ == all);
                let mut i: usize = 0;
                while i < held.len()
                    invariant
                        0 <= i <= held.len(),
                        held@ == all,
                        steps@ == seq![OfferStep::SetRemoteDescription(sdp)] + all.take(
                            i as int,
                        ).map_values(|c: IceCandidate| OfferStep::AddCandidate(c)),
                    decreases held.len() - i,
                {
                    let c = copy_candidate(&held[i]);
                    proof {
                        assert(all.take(i + 1) =~= all.take(i as int).push(all[i as int]));
                        assert(all.take(i + 1).map_values(
                            |c: IceCandidate| OfferStep::AddCandidate(c),
                        ) =~= all.take(i as int).map_values(
                            |c: IceCandidate| OfferStep::AddCandidate(c),
                        ).push(OfferStep::AddCandidate(all[i as int])));
                    }
                    steps.push(OfferStep::AddCandidate(c));
                    i = i + 1;
                }
                assert(all.take(held.len() as int) =~= all);
            },
            None => {
                assert(all =~= Seq::<IceCandidate>::empty());
                assert(all.map_values(|c: IceCandidate| OfferStep::AddCandidate(c)) =~= Seq::<
                    OfferStep,
                >::empty());
            },
        }
        steps.push(OfferStep::CreateAnswer);
        proof {
            assert(steps@ =~= spec_offer_steps(sdp, all));
            law_offer_applies_every_held_candidate(sdp, all);
        }
        steps
    }

    /// Decides what to do with a candidate from `from`: `Err` when there is
    /// no connection to that peer, `Ok(Some(c))` to apply it now when the
    /// remote description is known, `Ok(None)` when it was held back.
    pub fn handle_ice_candidate(
        &mut self,
        from: Id,
        candidate: IceCandidate,
        has_remote_description: bool,
    ) -> (outcome: Result<Option<IceCandidate>, String>)
        ensures
            outcome is Err <==> !old(self).peers().contains_key(from),
            outcome matches Err(msg) ==> msg@ == no_peer_message(),
            outcome matches Ok(now) ==> (now is Some <==> has_remote_description),
            outcome matches Ok(Some(c)) ==> c == candidate,
            outcome matches Ok(None) ==> final(self).pending() == spec_buffer(
                old(self).pending(),
                from,
                candidate,
            ),
            outcome matches Ok(None) ==> final(self).pending_of(from) == old(self).pending_of(
                from,
            ).push(candidate),
            !(outcome matches Ok(None)) ==> final(self).pending() == old(self).pending(),
            final(self).peers() == old(self).peers(),
    {
        if !self.peers.contains_key(&from) {
            return Err(String::from_str("No peer found!"));
        }
        if has_remote_description {
            Ok(Some(candidate))
        } else {
            self.buffer_candidate(from, candidate);
            Ok(None)
        }
    }

    /// Empties the table; returns every connection it held, to be closed.
    pub fn clear(&mut self) -> (drained: HashMap<Id, (P, Id)>)
        ensures
            drained@ == old(self).peers(),
            final(self).peers() == Map::<Id, (P, Id)>::empty(),
            final(self).pending() == Map::<Id, Seq<IceCandidate>>::empty(),
    {
        let mut drained: HashMap<Id, (P, Id)> = HashMap::new();
        std::mem::swap(&mut drained, &mut self.peers);
        self.pending_candidates.clear();
        assert(self.pending() =~= Map::<Id, Seq<IceCandidate>>::empty());
        drained
    }
}

/// A teardown that names a connection other than the one kept for the peer
/// (an older connection, since replaced) leaves the kept connection in place.
pub proof fn law_stale_cleanup_keeps_current<P>(peers: Map<Id, (P, Id)>, event: PeerCleanupEvent)
    requires
        peers.contains_key(event.peer_id),
        peers[event.peer_id].1 != event.connection_id,
    ensures
        spec_cleanup_peers(peers, event) == peers,
{
}

/// A teardown that names the kept connection removes it and touches no
/// other peer.
pub proof fn law_current_cleanup_removes_only_it<P>(
    peers: Map<Id, (P, Id)>,
    event: PeerCleanupEvent,
    other: Id,
)
    requires
        names_current(peers, event),
        other != event.peer_id,
    ensures
        !spec_cleanup_peers(peers, event).contains_key(event.peer_id),
        spec_cleanup_peers(peers, event).contains_key(other) == peers.contains_key(other),
        peers.contains_key(other) ==> spec_cleanup_peers(peers, event)[other] == peers[other],
{
}

/// When a connection is replaced by a new one under a new id, the old
/// connection's late teardown does not remove the new one.
pub proof fn law_late_cleanup_spares_replacement<P>(
    peers: Map<Id, (P, Id)>,
    peer_id: Id,
    old_id: Id,
    new_pc: P,
    new_id: Id,
)
    requires
        !peers.contains_key(peer_id),
        old_id != new_id,
    ensures
        ({
            let replaced = spec_register(peers, peer_id, new_pc, new_id);
            spec_cleanup_peers(replaced, PeerCleanupEvent { peer_id, connection_id: old_id })
                == replaced && replaced[peer_id] == (new_pc, new_id)
        }),
{
}

/// Registering a second connection to a peer keeps the first one.
pub proof fn law_first_registration_wins<P>(
    peers: Map<Id, (P, Id)>,
    peer_id: Id,
    first: P,
    first_id: Id,
    second: P,
    second_id: Id,
)
    ensures
        ({
            let once = spec_register(peers, peer_id, first, first_id);
            spec_register(once, peer_id, second, second_id) == once
        }),
{
}

/// Candidates held back for a peer come out in the order they arrived.
pub proof fn law_held_candidates_keep_order(
    pending: Map<Id, Seq<IceCandidate>>,
    peer: Id,
    first: IceCandidate,
    second: IceCandidate,
)
    requires
        !pending.contains_key(peer),
    ensures
        held_for(spec_buffer(spec_buffer(pending, peer, first), peer, second), peer) == seq![
            first,
            second,
        ],
{
    assert(held_for(spec_buffer(spec_buffer(pending, peer, first), peer, second), peer) =~= seq![
        first,
        second,
    ]);
}

/// Holding back candidates for one peer leaves those of other peers alone.
pub proof fn law_buffer_other_peers_unchanged(
    pending: Map<Id, Seq<IceCandidate>>,
    peer: Id,
    candidate: IceCandidate,
    other: Id,
)
    requires
        other != peer,
    ensures
        held_for(spec_buffer(pending, peer, candidate), other) == held_for(pending, other),
{
}

/// Answering an offer applies every held candidate: after the remote
/// description come exactly the held candidates, all of them, in the order
/// they arrived, and then the answer.
pub proof fn law_offer_applies_every_held_candidate(sdp: String, held: Seq<IceCandidate>)
    ensures
        spec_offer_steps(sdp, held).len() == held.len() + 2,
        spec_offer_steps(sdp, held)[0] == OfferStep::SetRemoteDescription(sdp),
        forall|i: int|
            0 <= i < held.len() ==> #[trigger] spec_offer_steps(sdp, held)[i + 1]
                == OfferStep::AddCandidate(held[i]),
        spec_offer_steps(sdp, held)[held.len() + 1int] == OfferStep::CreateAnswer,
{
    let steps = spec_offer_steps(sdp, held);
    assert forall|i: int| 0 <= i < held.len() implies #[trigger] steps[i + 1]
        == OfferStep::AddCandidate(held[i]) by {
        assert(steps[i + 1] == held.map_values(|c: IceCandidate| OfferStep::AddCandidate(c))[i]);
    }
}

/// Holding back a candidate appends it after all those already held for the
/// peer: nothing held is dropped or reordered, the list grows by one, and
/// other peers keep theirs.
pub proof fn law_buffer_appends(
    pending: Map<Id, Seq<IceCandidate>>,
    peer: Id,
    candidate: IceCandidate,
)
    ensures
        held_for(spec_buffer(pending, peer, candidate), peer).len() == held_for(pending, peer).len()
            + 1,
        forall|i: int|
            0 <= i < held_for(pending, peer).len() ==> #[trigger] held_for(
                spec_buffer(pending, peer, candidate),
                peer,
            )[i] == held_for(pending, peer)[i],
        held_for(spec_buffer(pending, peer, candidate), peer).last() == candidate,
        forall|other: Id|
            other != peer ==> #[trigger] held_for(spec_buffer(pending, peer, candidate), other)
                == held_for(pending, other),
{
}

} // verus!
