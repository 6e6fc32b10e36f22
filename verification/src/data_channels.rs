//! The desktop client's open chat data channels, one per peer, and the
//! front-end notifications their events raise.
use vstd::prelude::*;
use vstd::string::*;
use std::collections::HashMap;
use crate::models::{DataChannelAppEvent, Id};

verus! {

broadcast use vstd::std_specs::hash::group_hash_axioms;

/// An event reported by a data channel.
#[derive(Clone, Debug, PartialEq, Eq)]
pub enum DcEventKind {
    OnOpen,
    OnClosing,
    OnClose,
    OnError,
    OnMessage(Vec<u8>),
    Other,
}

/// The notification that a channel event raises, if any.
pub open spec fn spec_dc_notification(peer_id: Id, event: DcEventKind) -> Option<
    DataChannelAppEvent,
> {
    match event {
        DcEventKind::OnOpen => Some(DataChannelAppEvent::PeerConnected { peer_id }),
        DcEventKind::OnClose => Some(DataChannelAppEvent::PeerDisconnected { peer_id }),
        DcEventKind::OnMessage(data) => Some(
            DataChannelAppEvent::MessageReceived { peer_id, message: data },
        ),
        _ => None,
    }
}

/// The answer to a send towards a peer without a channel.
pub open spec fn no_channel_message() -> Seq<char> {
    "No data channel found for peer!"@
}

/// The chat channel (`C`) to each peer.
pub struct DcManager<C> {
    channels: HashMap<Id, C>,
}

impl<C> DcManager<C> {
    /// The channel to each peer.
    pub closed spec fn channels(&self) -> Map<Id, C> {
        self.channels@
    }

    /// A manager without channels.
    pub fn new() -> (m: Self)
        ensures
            m.channels() == Map::<Id, C>::empty(),
    {
        DcManager { channels: HashMap::new() }
    }

    /// Keeps `dc` as the channel to `peer_id`, replacing an older one.
    pub fn add_data_channel(&mut self, peer_id: Id, dc: C)
        ensures
            final(self).channels() == old(self).channels().insert(peer_id, dc),
    {
        self.channels.insert(peer_id, dc);
    }

    /// Forgets the channel to `peer_id` (if any) and tells the front end the
    /// peer is gone.
    pub fn remove_data_channel(&mut self, peer_id: Id) -> (out: (Option<C>, DataChannelAppEvent))
        ensures
            final(self).channels() == old(self).channels().remove(peer_id),
            old(self).channels().contains_key(peer_id) ==> out.0 == Some(
                old(self).channels()[peer_id],
            ),
            !old(self).channels().contains_key(peer_id) ==> out.0 is None,
            out.1 == (DataChannelAppEvent::PeerDisconnected { peer_id }),
    {
        let removed = self.channels.remove(&peer_id);
        (removed, DataChannelAppEvent::PeerDisconnected { peer_id })
    }

    /// The channel a message to `peer_id` goes through.
    pub fn send_message_channel(&self, peer_id: Id) -> (dc: Result<&C, String>)
        ensures
            dc is Ok <==> self.channels().contains_key(peer_id),
            dc matches Ok(c) ==> *c == self.channels()[peer_id],
            dc matches Err(msg) ==> msg@ == no_channel_message(),
    {
        match self.channels.get(&peer_id) {
            Some(c) => Ok(c),
            None => Err(String::from_str("No data channel found for peer!")),
        }
    }

    /// Handles an event of the channel to `peer_id`: an opened channel and a
    /// message are announced, a closed channel is forgotten and announced,
    /// other events change nothing.
    pub fn handle_dc_events(&mut self, peer_id: Id, event: DcEventKind) -> (notice: Option<
        DataChannelAppEvent,
    >)
        ensures
            notice == spec_dc_notification(peer_id, event),
            event is OnClose ==> final(self).channels() == old(self).channels().remove(peer_id),
            !(event is OnClose) ==> final(self).channels() == old(self).channels(),
    {
        match event {
            DcEventKind::OnOpen => Some(DataChannelAppEvent::PeerConnected { peer_id }),
            DcEventKind::OnClose => {
                let (_, notice) = self.remove_data_channel(peer_id);
                Some(notice)
            },
            DcEventKind::OnMessage(data) => Some(
                DataChannelAppEvent::MessageReceived { peer_id, message: data },
            ),
            _ => None,
        }
    }

    /// Forgets every channel; returns them, to be closed.
    pub fn clear(&mut self) -> (drained: HashMap<Id, C>)
        ensures
            drained@ == old(self).channels(),
            final(self).channels() == Map::<Id, C>::empty(),
    {
        let mut drained: HashMap<Id, C> = HashMap::new();
        std::mem::swap(&mut drained, &mut self.channels);
        drained
    }
}

/// Forgetting a peer's channel is idempotent: a second removal changes
/// nothing more and still announces the peer as gone.
pub proof fn law_remove_is_idempotent<C>(channels: Map<Id, C>, peer_id: Id)
    ensures
        channels.remove(peer_id).remove(peer_id) == channels.remove(peer_id),
{
    assert(channels.remove(peer_id).remove(peer_id) =~= channels.remove(peer_id));
}

/// Messages reach the front end with their bytes and their peer unchanged.
pub proof fn law_messages_forwarded_intact(peer_id: Id, data: Vec<u8>)
    ensures
        spec_dc_notification(peer_id, DcEventKind::OnMessage(data)) == Some(
            DataChannelAppEvent::MessageReceived { peer_id, message: data },
        ),
{
}

} // verus!
