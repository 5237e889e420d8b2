//! The packets that travel over a relay connection.

use crate::buffer::buf_bytes;
use tokio_util::bytes::BytesMut;
use vstd::prelude::*;

verus! {

/// One unit of traffic on the connection. A channel id is an opaque routing
/// key; a payload is carried verbatim.
#[derive(Debug, Clone, PartialEq, Eq)]
pub enum Package {
    /// A payload published on a channel: the channel id, then the payload.
    Message(BytesMut, BytesMut),
    /// A request to receive what is published on a channel.
    Subscribe(BytesMut),
    /// A request to stop receiving what is published on a channel.
    Unsubscribe(BytesMut),
    /// A heartbeat that asks for an echo of its payload.
    Ping(BytesMut),
    /// The echo of a heartbeat.
    Pong(BytesMut),
}

/// What a packet is, apart from the buffers that hold its bytes.
pub enum PackageView {
    Message { channel: Seq<u8>, payload: Seq<u8> },
    Subscribe { channel: Seq<u8> },
    Unsubscribe { channel: Seq<u8> },
    Ping { payload: Seq<u8> },
    Pong { payload: Seq<u8> },
}

impl View for Package {
    type V = PackageView;

    open spec fn view(&self) -> PackageView {
        match *self {
            Package::Message(channel, payload) => PackageView::Message {
                channel: buf_bytes(channel),
                payload: buf_bytes(payload),
            },
            Package::Subscribe(channel) => PackageView::Subscribe { channel: buf_bytes(channel) },
            Package::Unsubscribe(channel) => PackageView::Unsubscribe {
                channel: buf_bytes(channel),
            },
            Package::Ping(payload) => PackageView::Ping { payload: buf_bytes(payload) },
            Package::Pong(payload) => PackageView::Pong { payload: buf_bytes(payload) },
        }
    }
}

} // verus!
