//! The desktop client's three registries together, and logging out.
use vstd::prelude::*;
use std::collections::HashMap;
use crate::data_channels::DcManager;
use crate::ids::{parse_uuid, uuid_of};
use crate::models::{DataChannelAppEvent, IceCandidate, Id};
use crate::peers::{PeerCleanupEvent, WebRtcManager, names_current, spec_cleanup_peers};
use crate::ws_client::{WebSocketManager, WebSocketStatus, WsNotice, spec_disconnect};

verus! {

/// The signalling connection (writer channel `S`), the peer connections
/// (`P`) and their chat data channels (`C`).
pub struct ClientState<S, C, P> {
    pub websocket_manager: WebSocketManager<S>,
    pub webrtc_manager: WebRtcManager<P>,
    pub dc_manager: DcManager<C>,
}

/// What logging out hands back: the notifications for the front end and the
/// channels and connections that were open, to be closed.
pub struct LogoutCleanup<C, P> {
    pub notices: Vec<WsNotice>,
    pub channels: HashMap<Id, C>,
    pub peers: HashMap<Id, (P, Id)>,
}

/// What tearing down a peer hands back: the removed connection and data
/// channel, to be closed, and the notice for the front end.
pub struct PeerTeardown<C, P> {
    pub connection: Option<P>,
    pub channel: Option<C>,
    pub notice: DataChannelAppEvent,
}

impl<S, C, P> ClientState<S, C, P> {
    /// A client with nothing connected.
    pub fn new() -> (state: Self)
        ensures
            state.websocket_manager.state() == (WebSocketStatus::Disconnected, None::<S>, None::<Id>),
            state.webrtc_manager.peers() == Map::<Id, (P, Id)>::empty(),
            state.webrtc_manager.pending() == Map::<Id, Seq<IceCandidate>>::empty(),
            state.dc_manager.channels() == Map::<Id, C>::empty(),
    {
        ClientState {
            websocket_manager: WebSocketManager::new(),
            webrtc_manager: WebRtcManager::new(),
            dc_manager: DcManager::new(),
        }
    }

    /// Tears down the peer connection named by `event`: the connection is
    /// removed only if it is still the one the event names; the candidates
    /// held for the peer and its data channel are dropped in any case, and
    /// the front end is told the peer is gone.
    pub fn cleanup_peer_connection(&mut self, event: PeerCleanupEvent) -> (out: PeerTeardown<C, P>)
        ensures
            final(self).webrtc_manager.peers() == spec_cleanup_peers(
                old(self).webrtc_manager.peers(),
                event,
            ),
            names_current(old(self).webrtc_manager.peers(), event) ==> out.connection == Some(
                old(self).webrtc_manager.peers()[event.peer_id].0,
            ),
            !names_current(old(self).webrtc_manager.peers(), event) ==> out.connection is None,
            final(self).webrtc_manager.pending() == old(self).webrtc_manager.pending().remove(
                event.peer_id,
            ),
            final(self).dc_manager.channels() == old(self).dc_manager.channels().remove(
                event.peer_id,
            ),
            old(self).dc_manager.channels().contains_key(event.peer_id) ==> out.channel == Some(
                old(self).dc_manager.channels()[event.peer_id],
            ),
            !old(self).dc_manager.channels().contains_key(event.peer_id) ==> out.channel is None,
            out.notice == (DataChannelAppEvent::PeerDisconnected { peer_id: event.peer_id }),
            final(self).websocket_manager.state() == old(self).websocket_manager.state(),
    {
        let connection = self.webrtc_manager.cleanup_peer_connection(event);
        let (channel, notice) = self.dc_manager.remove_data_channel(event.peer_id);
        PeerTeardown { connection, channel, notice }
    }

    /// Closes whatever connection is current for `peer_id` (the front end's
    /// "end chat"), with its held candidates and data channel; nothing
    /// changes when there is none.
    pub fn close_peer_connection_manual(&mut self, peer_id: Id) -> (out: Option<PeerTeardown<C, P>>)
        ensures
            old(self).webrtc_manager.peers().contains_key(peer_id) ==> {
                &&& out matches Some(t)
                &&& out->0.connection == Some(old(self).webrtc_manager.peers()[peer_id].0)
                &&& out->0.notice == (DataChannelAppEvent::PeerDisconnected { peer_id })
                &&& old(self).dc_manager.channels().contains_key(peer_id) ==> out->0.channel
                    == Some(old(self).dc_manager.channels()[peer_id])
                &&& !old(self).dc_manager.channels().contains_key(peer_id) ==> out->0.channel is None
                &&& final(self).webrtc_manager.peers() == old(self).webrtc_manager.peers().remove(peer_id)
                &&& final(self).webrtc_manager.pending() == old(self).webrtc_manager.pending().remove(peer_id)
                &&& final(self).dc_manager.channels() == old(self).dc_manager.channels().remove(peer_id)
            },
            !old(self).webrtc_manager.peers().contains_key(peer_id) ==> {
                &&& out is None
                &&& final(self).webrtc_manager.peers() == old(self).webrtc_manager.peers()
                &&& final(self).webrtc_manager.pending() == old(self).webrtc_manager.pending()
                &&& final(self).dc_manager.channels() == old(self).dc_manager.channels()
            },
            final(self).websocket_manager.state() == old(self).websocket_manager.state(),
    {
        match self.webrtc_manager.current_connection_id(peer_id) {
            Some(connection_id) => Some(
                self.cleanup_peer_connection(PeerCleanupEvent { peer_id, connection_id }),
            ),
            None => None,
        }
    }

    /// Closes the connection to the peer whose id is the text `peer_id`; a
    /// text that is not a UUID changes nothing and gives the parser's error
    /// text.
    pub fn close_peer_connection(&mut self, peer_id: &str) -> (out: Result<Option<PeerTeardown<C, P>>, String>)
        ensures
            uuid_of(peer_id@) is None ==> {
                &&& out is Err
                &&& final(self).webrtc_manager.peers() == old(self).webrtc_manager.peers()
                &&& final(self).webrtc_manager.pending() == old(self).webrtc_manager.pending()
                &&& final(self).dc_manager.channels() == old(self).dc_manager.channels()
            },
            uuid_of(peer_id@) matches Some(v) ==> {
                &&& out is Ok
                &&& old(self).webrtc_manager.peers().contains_key(v) ==> {
                    &&& out->Ok_0 is Some
                    &&& final(self).webrtc_manager.peers() == old(self).webrtc_manager.peers().remove(v)
                    &&& final(self).webrtc_manager.pending() == old(self).webrtc_manager.pending().remove(v)
                    &&& final(self).dc_manager.channels() == old(self).dc_manager.channels().remove(v)
                }
                &&& !old(self).webrtc_manager.peers().contains_key(v) ==> {
                    &&& out->Ok_0 is None
                    &&& final(self).webrtc_manager.peers() == old(self).webrtc_manager.peers()
                    &&& final(self).webrtc_manager.pending() == old(self).webrtc_manager.pending()
                    &&& final(self).dc_manager.channels() == old(self).dc_manager.channels()
                }
            },
            final(self).websocket_manager.state() == old(self).websocket_manager.state(),
    {
        let v = parse_uuid(peer_id)?;
        Ok(self.close_peer_connection_manual(v))
    }

    /// Logs out: first the signalling connection is dropped, so that no new
    /// signalling arrives during the teardown, then every data channel and
    /// every peer connection (with the candidates held for them) is
    /// forgotten and handed back to be closed.
    pub fn logout_cleanup(&mut self) -> (out: LogoutCleanup<C, P>)
        ensures
            final(self).websocket_manager.state() == spec_disconnect(
                old(self).websocket_manager.state(),
            ),
            out.notices@ == seq![WsNotice::StatusChanged(WebSocketStatus::Disconnected)],
            out.channels@ == old(self).dc_manager.channels(),
            final(self).dc_manager.channels() == Map::<Id, C>::empty(),
            out.peers@ == old(self).webrtc_manager.peers(),
            final(self).webrtc_manager.peers() == Map::<Id, (P, Id)>::empty(),
            final(self).webrtc_manager.pending() == Map::<Id, Seq<IceCandidate>>::empty(),
    {
        let notices = self.websocket_manager.disconnect();
        let channels = self.dc_manager.clear();
        let peers = self.webrtc_manager.clear();
        LogoutCleanup { notices, channels, peers }
    }
}

} // verus!
