//! Reading frames from a buffer and writing them to one.

use crate::buffer::{
    buf_advance, buf_as_slice, buf_bytes, buf_len, buf_put_slice, buf_put_u16, buf_put_u8,
    buf_split_to,
};
pub use crate::packet::Package;
use crate::wire::{
    announced_len, body_bytes, frame_bytes, frame_error, parse, CodecError, Parsed,
    MAX_BODY_LEN, MAX_CHANNEL_LEN, TAG_MESSAGE, TAG_PING, TAG_PONG, TAG_SUBSCRIBE,
    TAG_UNSUBSCRIBE,
};
use tokio_util::bytes::BytesMut;
use vstd::prelude::*;

verus! {

/// The frame format's reader and writer. It keeps no state between calls:
/// what is left of a frame waits in the caller's buffer.
pub struct Codec;

impl Codec {
    /// Takes one frame from the front of `src`, if a whole one is there.
    ///
    /// While the frame that the first two bytes announce is not complete,
    /// the answer is `Ok(None)` and `src` keeps every byte, the two length
    /// bytes included. A complete frame leaves `src` whether or not it holds a
    /// packet; one that holds none is an error, after which the stream cannot
    /// be trusted.
    pub fn decode(&mut self, src: &mut BytesMut) -> (r: Result<Option<Package>, CodecError>)
        ensures
            match parse(buf_bytes(*old(src))) {
                Parsed::Incomplete => r matches Ok(None) && buf_bytes(*final(src)) == buf_bytes(
                    *old(src),
                ),
                Parsed::Frame { packet, used } => r matches Ok(Some(p)) && p@ == packet
                    && buf_bytes(*final(src)) == buf_bytes(*old(src)).skip(used as int),
                Parsed::Malformed { error, used } => r matches Err(e) && e == error && buf_bytes(
                    *final(src),
                ) == buf_bytes(*old(src)).skip(used as int),
            },
    {
        let ghost whole = buf_bytes(*src);
        let have: usize = buf_len(src);
        if have < 2 {
            return Ok(None);
        }
        let head = buf_as_slice(src);
        let size: usize = (head[0] as usize) * 256 + (head[1] as usize);
        assert(size == announced_len(whole));
        if have - 2 < size {
            return Ok(None);
        }
        buf_advance(src, 2);
        let mut body = buf_split_to(src, size);
        let ghost all = whole.subrange(2, 2 + size);
        assert(buf_bytes(body) =~= all);
        assert(buf_bytes(*src) =~= whole.skip(2 + size));
        if size == 0 {
            return Err(CodecError::EmptyFrame);
        }
        let tag: u8 = buf_as_slice(&body)[0];
        buf_advance(&mut body, 1);
        if tag == TAG_PING {
            return Ok(Some(Package::Ping(body)));
        }
        if tag == TAG_PONG {
            return Ok(Some(Package::Pong(body)));
        }
        if tag > TAG_PONG {
            return Err(CodecError::UnknownTag(tag));
        }
        if buf_len(&body) < 1 {
            return Err(CodecError::MissingChannelLength);
        }
        let id_len: usize = buf_as_slice(&body)[0] as usize;
        buf_advance(&mut body, 1);
        if buf_len(&body) < id_len {
            return Err(CodecError::TruncatedChannel);
        }
        let channel = buf_split_to(&mut body, id_len);
        assert(buf_bytes(channel) =~= all.subrange(2, 2 + id_len));
        assert(buf_bytes(body) =~= all.skip(2 + id_len));
        if tag == TAG_MESSAGE {
            Ok(Some(Package::Message(channel, body)))
        } else if tag == TAG_SUBSCRIBE {
            Ok(Some(Package::Subscribe(channel)))
        } else {
            Ok(Some(Package::Unsubscribe(channel)))
        }
    }

    /// The length of the body of the frame that holds `pkg`, or why `pkg`
    /// has no frame.
    pub fn body_len(pkg: &Package) -> (r: Result<usize, CodecError>)
        ensures
            match frame_error(pkg@) {
                None => r == Ok::<usize, CodecError>(body_bytes(pkg@).len() as usize),
                Some(error) => r == Err::<usize, CodecError>(error),
            },
    {
        match pkg {
            Package::Message(channel, payload) => {
                let id_len: usize = buf_len(channel);
                if id_len > MAX_CHANNEL_LEN {
                    return Err(CodecError::ChannelTooLong);
                }
                let rest_len: usize = buf_len(payload);
                if rest_len > MAX_BODY_LEN - 2 - id_len {
                    return Err(CodecError::FrameTooLong);
                }
                Ok(2 + id_len + rest_len)
            },
            Package::Subscribe(channel) | Package::Unsubscribe(channel) => {
                let id_len: usize = buf_len(channel);
                if id_len > MAX_CHANNEL_LEN {
                    return Err(CodecError::ChannelTooLong);
                }
                Ok(2 + id_len)
            },
            Package::Ping(payload) | Package::Pong(payload) => {
                let rest_len: usize = buf_len(payload);
                if rest_len > MAX_BODY_LEN - 1 {
                    return Err(CodecError::FrameTooLong);
                }
                Ok(1 + rest_len)
            },
        }
    }

    /// Appends the frame that holds `pkg` to `dst`.
    ///
    /// A packet whose channel id is longer than one byte can count, or whose
    /// body is longer than two bytes can count, has no frame: it is refused
    /// and `dst` stays as it was.
    pub fn encode(&mut self, pkg: Package, dst: &mut BytesMut) -> (r: Result<(), CodecError>)
        ensures
            match frame_error(pkg@) {
                None => r is Ok && buf_bytes(*final(dst)) == buf_bytes(*old(dst)) + frame_bytes(
                    pkg@,
                ),
                Some(error) => r == Err::<(), CodecError>(error) && buf_bytes(*final(dst))
                    == buf_bytes(*old(dst)),
            },
    {
        let ghost before = buf_bytes(*dst);
        let body_len: usize = match Codec::body_len(&pkg) {
            Ok(n) => n,
            Err(error) => {
                return Err(error);
            },
        };
        buf_put_u16(dst, body_len as u16);
        match pkg {
            Package::Message(channel, payload) => {
                buf_put_u8(dst, TAG_MESSAGE);
                buf_put_u8(dst, buf_len(&channel) as u8);
                buf_put_slice(dst, buf_as_slice(&channel));
                buf_put_slice(dst, buf_as_slice(&payload));
            },
            Package::Subscribe(channel) => {
                buf_put_u8(dst, TAG_SUBSCRIBE);
                buf_put_u8(dst, buf_len(&channel) as u8);
                buf_put_slice(dst, buf_as_slice(&channel));
            },
            Package::Unsubscribe(channel) => {
                buf_put_u8(dst, TAG_UNSUBSCRIBE);
                buf_put_u8(dst, buf_len(&channel) as u8);
                buf_put_slice(dst, buf_as_slice(&channel));
            },
            Package::Ping(payload) => {
                buf_put_u8(dst, TAG_PING);
                buf_put_slice(dst, buf_as_slice(&payload));
            },
            Package::Pong(payload) => {
                buf_put_u8(dst, TAG_PONG);
                buf_put_slice(dst, buf_as_slice(&payload));
            },
        }
        assert(buf_bytes(*dst) =~= before + frame_bytes(pkg@));
        Ok(())
    }
}

} // verus!
