//! The frame format, as a relation between packets and bytes.
//!
//! A frame is a two-byte big-endian length, then that many bytes of body. The
//! body starts with a tag. Tags 0, 1 and 2 (message, subscribe, unsubscribe)
//! are followed by one byte that counts the channel id, then the id; a message
//! carries its payload after the id. Tags 3 and 4 (ping, pong) are followed by
//! the payload alone.

use crate::packet::PackageView;
use vstd::prelude::*;

verus! {

pub const TAG_MESSAGE: u8 = 0;

pub const TAG_SUBSCRIBE: u8 = 1;

pub const TAG_UNSUBSCRIBE: u8 = 2;

pub const TAG_PING: u8 = 3;

pub const TAG_PONG: u8 = 4;

/// The longest channel id: its length is written in one byte.
pub const MAX_CHANNEL_LEN: usize = 255;

/// The longest body: its length is written in two bytes.
pub const MAX_BODY_LEN: usize = 65535;

/// Why a packet cannot be written as a frame, or a frame not read as a packet.
#[derive(Debug, Clone, Copy, PartialEq, Eq, Structural)]
pub enum CodecError {
    /// The frame has a body of no bytes, so it has no tag.
    EmptyFrame,
    /// The tag is none of the five that the format knows.
    UnknownTag(u8),
    /// The body ends where the length of the channel id should stand.
    MissingChannelLength,
    /// The body is shorter than the channel id that it announces.
    TruncatedChannel,
    /// The channel id is longer than one byte can count.
    ChannelTooLong,
    /// The body is longer than two bytes can count.
    FrameTooLong,
}

/// What the front of a buffer holds.
pub enum Parsed {
    /// Less than one whole frame: more bytes are needed.
    Incomplete,
    /// A frame of `used` bytes that holds `packet`.
    Frame { packet: PackageView, used: nat },
    /// A frame of `used` bytes that holds no packet.
    Malformed { error: CodecError, used: nat },
}

/// The two bytes that stand for `n`, the high one first.
pub open spec fn be16(n: int) -> Seq<u8> {
    seq![(n / 256) as u8, (n % 256) as u8]
}

/// The channel id with its length in front.
pub open spec fn channel_bytes(channel: Seq<u8>) -> Seq<u8> {
    seq![channel.len() as u8] + channel
}

/// The body of the frame that holds `p`: the tag and what follows it.
pub open spec fn body_bytes(p: PackageView) -> Seq<u8> {
    match p {
        PackageView::Message { channel, payload } => seq![TAG_MESSAGE] + channel_bytes(channel)
            + payload,
        PackageView::Subscribe { channel } => seq![TAG_SUBSCRIBE] + channel_bytes(channel),
        PackageView::Unsubscribe { channel } => seq![TAG_UNSUBSCRIBE] + channel_bytes(channel),
        PackageView::Ping { payload } => seq![TAG_PING] + payload,
        PackageView::Pong { payload } => seq![TAG_PONG] + payload,
    }
}

/// The frame that holds `p`: the length of the body, then the body.
pub open spec fn frame_bytes(p: PackageView) -> Seq<u8> {
    be16(body_bytes(p).len() as int) + body_bytes(p)
}

/// The length of the channel id of `p`; 0 where it has none.
pub open spec fn channel_len(p: PackageView) -> nat {
    match p {
        PackageView::Message { channel, .. } => channel.len(),
        PackageView::Subscribe { channel } => channel.len(),
        PackageView::Unsubscribe { channel } => channel.len(),
        PackageView::Ping { .. } => 0,
        PackageView::Pong { .. } => 0,
    }
}

/// Why `p` has no frame, if it has none: its channel id or its body is too
/// long to be counted.
pub open spec fn frame_error(p: PackageView) -> Option<CodecError> {
    if channel_len(p) > MAX_CHANNEL_LEN {
        Some(CodecError::ChannelTooLong)
    } else if body_bytes(p).len() > MAX_BODY_LEN {
        Some(CodecError::FrameTooLong)
    } else {
        None
    }
}

/// The packet that a body holds, or why it holds none. Bytes that follow the
/// channel id of a subscribe or unsubscribe body are not looked at.
pub open spec fn parse_body(body: Seq<u8>) -> Result<PackageView, CodecError> {
    if body.len() == 0 {
        Err(CodecError::EmptyFrame)
    } else if body[0] == TAG_PING {
        Ok(PackageView::Ping { payload: body.skip(1) })
    } else if body[0] == TAG_PONG {
        Ok(PackageView::Pong { payload: body.skip(1) })
    } else if body[0] > TAG_PONG {
        Err(CodecError::UnknownTag(body[0]))
    } else if body.len() < 2 {
        Err(CodecError::MissingChannelLength)
    } else if body.len() < 2 + body[1] {
        Err(CodecError::TruncatedChannel)
    } else {
        let channel = body.subrange(2, 2 + body[1]);
        if body[0] == TAG_MESSAGE {
            Ok(PackageView::Message { channel, payload: body.skip(2 + body[1]) })
        } else if body[0] == TAG_SUBSCRIBE {
            Ok(PackageView::Subscribe { channel })
        } else {
            Ok(PackageView::Unsubscribe { channel })
        }
    }
}

/// The length that the first two bytes of `buf` announce.
pub open spec fn announced_len(buf: Seq<u8>) -> nat
    recommends
        buf.len() >= 2,
{
    (buf[0] * 256 + buf[1]) as nat
}

/// What the front of `buf` holds. Nothing is decided before the whole frame
/// that the first two bytes announce is there.
pub open spec fn parse(buf: Seq<u8>) -> Parsed {
    if buf.len() < 2 || buf.len() < 2 + announced_len(buf) {
        Parsed::Incomplete
    } else {
        let used = 2 + announced_len(buf);
        match parse_body(buf.subrange(2, used as int)) {
            Ok(packet) => Parsed::Frame { packet, used },
            Err(error) => Parsed::Malformed { error, used },
        }
    }
}

/// A whole frame whose tag is none of the five is malformed, whatever else
/// it holds: it is never read as a packet and never waited on.
pub proof fn lemma_unknown_tag(buf: Seq<u8>)
    requires
        buf.len() >= 2,
        announced_len(buf) >= 1,
        buf.len() >= 2 + announced_len(buf),
        buf[2] > TAG_PONG,
    ensures
        parse(buf) == (Parsed::Malformed {
            error: CodecError::UnknownTag(buf[2]),
            used: 2 + announced_len(buf),
        }),
{
}

/// What reading frame after frame does to a buffer: the packets read, the
/// bytes left, and the error that ended the reading, if one did.
pub struct Drained {
    pub packets: Seq<PackageView>,
    pub rest: Seq<u8>,
    pub error: Option<CodecError>,
}

/// Reads frames from the front of `buf` until less than a whole frame is left
/// or a frame holds no packet.
pub open spec fn drain(buf: Seq<u8>) -> Drained
    decreases buf.len(),
{
    match parse(buf) {
        Parsed::Incomplete => Drained { packets: Seq::empty(), rest: buf, error: None },
        Parsed::Malformed { error, used } => Drained {
            packets: Seq::empty(),
            rest: buf.skip(used as int),
            error: Some(error),
        },
        Parsed::Frame { packet, used } => {
            let after = drain(buf.skip(used as int));
            Drained {
                packets: seq![packet] + after.packets,
                rest: after.rest,
                error: after.error,
            }
        },
    }
}

/// The frames of `packets`, one after the other.
pub open spec fn stream_bytes(packets: Seq<PackageView>) -> Seq<u8>
    decreases packets.len(),
{
    if packets.len() == 0 {
        Seq::empty()
    } else {
        frame_bytes(packets[0]) + stream_bytes(packets.skip(1))
    }
}

/// A frame says how long it is: two bytes more than its body.
pub proof fn lemma_frame_len(p: PackageView)
    requires
        frame_error(p) is None,
    ensures
        frame_bytes(p).len() == 2 + body_bytes(p).len(),
        announced_len(frame_bytes(p)) == body_bytes(p).len(),
        3 <= frame_bytes(p).len() <= 2 + MAX_BODY_LEN,
{
    let n = body_bytes(p).len() as int;
    assert(1 <= n <= 65535);
    assert(((n / 256) as u8) * 256 + ((n % 256) as u8) == n);
}

/// Round trip: the frame of a packet that has one, whatever follows it in the
/// buffer, is read as that packet, and as exactly the frame's bytes.
pub proof fn lemma_round_trip(p: PackageView, more: Seq<u8>)
    requires
        frame_error(p) is None,
    ensures
        parse(frame_bytes(p) + more) == (Parsed::Frame {
            packet: p,
            used: frame_bytes(p).len(),
        }),
{
    lemma_frame_len(p);
    let buf = frame_bytes(p) + more;
    let body = body_bytes(p);
    let used = 2 + body.len();
    assert(buf[0] == frame_bytes(p)[0] && buf[1] == frame_bytes(p)[1]);
    assert(announced_len(buf) == body.len());
    assert(buf.subrange(2, used as int) =~= body);
    match p {
        PackageView::Message { channel, payload } => {
            assert(body[1] == channel.len());
            assert(body.subrange(2, 2 + body[1]) =~= channel);
            assert(body.skip(2 + body[1]) =~= payload);
        },
        PackageView::Subscribe { channel } => {
            assert(body[1] == channel.len());
            assert(body.subrange(2, 2 + body[1]) =~= channel);
        },
        PackageView::Unsubscribe { channel } => {
            assert(body[1] == channel.len());
            assert(body.subrange(2, 2 + body[1]) =~= channel);
        },
        PackageView::Ping { payload } => {
            assert(body.skip(1) =~= payload);
        },
        PackageView::Pong { payload } => {
            assert(body.skip(1) =~= payload);
        },
    }
}

/// Once the front of a buffer is decided, a frame or a malformed one, bytes
/// that arrive behind it change nothing.
pub proof fn lemma_parse_stable(buf: Seq<u8>, more: Seq<u8>)
    requires
        !(parse(buf) is Incomplete),
    ensures
        parse(buf + more) == parse(buf),
{
    let whole = buf + more;
    assert(whole[0] == buf[0] && whole[1] == buf[1]);
    let used = 2 + announced_len(buf);
    assert(whole.subrange(2, used as int) =~= buf.subrange(2, used as int));
}

/// Streaming equivalence: a stream that arrives in two pieces, split at any
/// place, gives the packets of the whole. Reading the first piece, then what
/// it left together with the second, reads the same packets in the same
/// order, leaves the same bytes and ends in the same error. Where the first
/// piece already ends in an error, the second is never read.
pub proof fn lemma_split_stream(first: Seq<u8>, second: Seq<u8>)
    ensures
        drain(first).error is None ==> {
            let early = drain(first);
            let late = drain(early.rest + second);
            &&& drain(first + second).packets == early.packets + late.packets
            &&& drain(first + second).rest == late.rest
            &&& drain(first + second).error == late.error
        },
        drain(first).error is Some ==> {
            &&& drain(first + second).packets == drain(first).packets
            &&& drain(first + second).rest == drain(first).rest + second
            &&& drain(first + second).error == drain(first).error
        },
    decreases first.len(),
{
    let whole = first + second;
    match parse(first) {
        Parsed::Incomplete => {
            assert(drain(first).packets + drain(whole).packets =~= drain(whole).packets);
        },
        Parsed::Malformed { error, used } => {
            lemma_parse_stable(first, second);
            assert(whole.skip(used as int) =~= first.skip(used as int) + second);
        },
        Parsed::Frame { packet, used } => {
            lemma_parse_stable(first, second);
            assert(whole.skip(used as int) =~= first.skip(used as int) + second);
            lemma_split_stream(first.skip(used as int), second);
            let tail = drain(first.skip(used as int));
            if tail.error is None {
                let late = drain(tail.rest + second);
                assert((seq![packet] + tail.packets) + late.packets =~= seq![packet] + (
                tail.packets + late.packets));
            }
        },
    }
}

/// Round trip of a whole stream: the frames of any packets that have frames,
/// written one after the other, are read back as those packets, in order,
/// with nothing left and no error.
pub proof fn lemma_stream_round_trip(packets: Seq<PackageView>)
    requires
        forall|i: int| 0 <= i < packets.len() ==> frame_error(#[trigger] packets[i]) is None,
    ensures
        drain(stream_bytes(packets)).packets == packets,
        drain(stream_bytes(packets)).rest == Seq::<u8>::empty(),
        drain(stream_bytes(packets)).error is None,
    decreases packets.len(),
{
    if packets.len() > 0 {
        let head = packets[0];
        let tail = packets.skip(1);
        assert forall|i: int| 0 <= i < tail.len() implies frame_error(#[trigger] tail[i]) is None by {
            assert(tail[i] == packets[i + 1]);
        }
        lemma_round_trip(head, stream_bytes(tail));
        lemma_stream_round_trip(tail);
        let buf = stream_bytes(packets);
        assert(buf.skip(frame_bytes(head).len() as int) =~= stream_bytes(tail));
        assert(seq![head] + tail =~= packets);
    }
}

} // verus!
