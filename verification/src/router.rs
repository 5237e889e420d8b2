//! The decisions of a session: what to send when it opens, and what each
//! packet from the relay and each event of the directory leads to.
//!
//! A session reacts to one thing at a time, and each reaction sends at most
//! one packet. Waiting, reading and writing are the caller's part; what is
//! decided here depends on the packet or the event alone, so the order in
//! which the caller hands them in is the order of what goes out.

use crate::buffer::{buf_bytes, buf_from_slice};
use crate::packet::{Package, PackageView};
use crate::wire::CodecError;
use tokio_util::bytes::BytesMut;
use vstd::prelude::*;

verus! {

/// A session on one channel of the relay.
pub struct Router {
    /// The id of the channel that the session subscribes to and publishes on.
    pub channel: BytesMut,
}

/// What a packet from the relay leads to.
#[derive(Debug, Clone, PartialEq, Eq)]
pub enum Reaction {
    /// Send this packet.
    Send(Package),
    /// The payload is a request that arrived on `channel`: answer it with
    /// [`Router::reply`] on that channel, if it has an answer.
    Handle { channel: BytesMut, payload: BytesMut },
    /// Send nothing.
    Nothing,
    /// End the session: the stream from the relay cannot be trusted any more.
    Close(CodecError),
}

/// A [`Reaction`] apart from the buffers that hold its bytes.
pub enum ReactionView {
    Send(PackageView),
    Handle { channel: Seq<u8>, payload: Seq<u8> },
    Nothing,
    Close(CodecError),
}

impl View for Reaction {
    type V = ReactionView;

    open spec fn view(&self) -> ReactionView {
        match *self {
            Reaction::Send(packet) => ReactionView::Send(packet@),
            Reaction::Handle { channel, payload } => ReactionView::Handle {
                channel: buf_bytes(channel),
                payload: buf_bytes(payload),
            },
            Reaction::Nothing => ReactionView::Nothing,
            Reaction::Close(error) => ReactionView::Close(error),
        }
    }
}

/// What a packet from the relay leads to: a ping is echoed with its own
/// payload, a message is a request to handle, and a pong, a subscription or
/// its cancellation is of no interest to an agent.
pub open spec fn reaction_to(packet: PackageView) -> ReactionView {
    match packet {
        PackageView::Ping { payload } => ReactionView::Send(PackageView::Pong { payload }),
        PackageView::Message { channel, payload } => ReactionView::Handle { channel, payload },
        _ => ReactionView::Nothing,
    }
}

/// What reading the connection leads to: a packet is reacted to, and a frame
/// that holds no packet ends the session, since nothing says where the next
/// frame starts.
pub open spec fn reaction_to_frame(frame: Result<PackageView, CodecError>) -> ReactionView {
    match frame {
        Ok(packet) => reaction_to(packet),
        Err(error) => ReactionView::Close(error),
    }
}

/// What was read from the connection, apart from the buffers.
pub open spec fn frame_view(frame: Result<Package, CodecError>) -> Result<PackageView, CodecError> {
    match frame {
        Ok(packet) => Ok(packet@),
        Err(error) => Err(error),
    }
}

impl Router {
    /// The id of the session's channel.
    pub open spec fn channel_id(&self) -> Seq<u8> {
        buf_bytes(self.channel)
    }

    /// Opens a session on `channel`. The packet that comes with it subscribes
    /// to the channel: it is the first thing to send on the connection,
    /// before anything is read from it.
    pub fn open(channel: &[u8]) -> (opened: (Router, Package))
        ensures
            opened.0.channel_id() == channel@,
            opened.1@ == (PackageView::Subscribe { channel: channel@ }),
    {
        let id = buf_from_slice(channel);
        let subscribe = Package::Subscribe(id.clone());
        (Router { channel: id }, subscribe)
    }

    /// Reacts to a packet from the relay.
    pub fn on_packet(&self, packet: Package) -> (reaction: Reaction)
        ensures
            reaction@ == reaction_to(packet@),
    {
        match packet {
            Package::Ping(payload) => Reaction::Send(Package::Pong(payload)),
            Package::Message(channel, payload) => Reaction::Handle { channel, payload },
            _ => Reaction::Nothing,
        }
    }

    /// Reacts to what was read from the connection: a packet, or the error
    /// of a frame that holds none.
    pub fn on_frame(&self, frame: Result<Package, CodecError>) -> (reaction: Reaction)
        ensures
            reaction@ == reaction_to_frame(frame_view(frame)),
    {
        match frame {
            Ok(packet) => self.on_packet(packet),
            Err(error) => Reaction::Close(error),
        }
    }

    /// The packet that carries the answer to a request: a message on the
    /// channel that the request arrived on.
    pub fn reply(&self, channel: BytesMut, answer: &[u8]) -> (packet: Package)
        ensures
            packet@ == (PackageView::Message { channel: buf_bytes(channel), payload: answer@ }),
    {
        Package::Message(channel, buf_from_slice(answer))
    }

    /// The packet that publishes an event of the directory: a message on
    /// the session's own channel.
    pub fn publish(&self, event: &[u8]) -> (packet: Package)
        ensures
            packet@ == (PackageView::Message { channel: self.channel_id(), payload: event@ }),
    {
        Package::Message(self.channel.clone(), buf_from_slice(event))
    }
}

} // verus!
