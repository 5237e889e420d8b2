use stem_sync::codec::Codec;
use stem_sync::packet::Package;
use stem_sync::router::{Reaction, Router};
use stem_sync::wire::CodecError;
use tokio_util::bytes::BytesMut;

fn buf(bytes: &[u8]) -> BytesMut {
    BytesMut::from(bytes)
}

#[test]
fn session_opens_with_a_subscription() {
    let (router, first) = Router::open(b"abc");
    assert_eq!(first, Package::Subscribe(buf(b"abc")));
    assert_eq!(router.channel, buf(b"abc"));
    let mut out = BytesMut::new();
    Codec.encode(first, &mut out).unwrap();
    assert_eq!(out.to_vec(), vec![0, 5, 1, 3, b'a', b'b', b'c']);
}

#[test]
fn ping_is_echoed() {
    let (router, _) = Router::open(b"abc");
    assert_eq!(
        router.on_packet(Package::Ping(buf(&[0x01, 0x02]))),
        Reaction::Send(Package::Pong(buf(&[0x01, 0x02])))
    );
    assert_eq!(router.on_packet(Package::Ping(buf(&[]))), Reaction::Send(Package::Pong(buf(&[]))));
}

#[test]
fn ping_echo_on_the_wire() {
    let (router, _) = Router::open(b"abc");
    let mut wire = buf(&[0, 3, 3, 0x01, 0x02]);
    let packet = Codec.decode(&mut wire).unwrap().unwrap();
    let mut out = BytesMut::new();
    match router.on_packet(packet) {
        Reaction::Send(reply) => Codec.encode(reply, &mut out).unwrap(),
        other => panic!("no echo: {:?}", other),
    }
    assert_eq!(out.to_vec(), vec![0, 3, 4, 0x01, 0x02]);
}

#[test]
fn message_is_handed_on_with_its_channel() {
    let (router, _) = Router::open(b"abc");
    assert_eq!(
        router.on_packet(Package::Message(buf(b"xyz"), buf(&[5, 6]))),
        Reaction::Handle { channel: buf(b"xyz"), payload: buf(&[5, 6]) }
    );
}

#[test]
fn other_packets_are_discarded() {
    let (router, _) = Router::open(b"abc");
    assert_eq!(router.on_packet(Package::Pong(buf(&[1]))), Reaction::Nothing);
    assert_eq!(router.on_packet(Package::Subscribe(buf(b"abc"))), Reaction::Nothing);
    assert_eq!(router.on_packet(Package::Unsubscribe(buf(b"abc"))), Reaction::Nothing);
}

#[test]
fn reply_goes_to_the_channel_of_the_request() {
    let (router, _) = Router::open(b"abc");
    assert_eq!(
        router.reply(buf(b"xyz"), &[1, 2, 3]),
        Package::Message(buf(b"xyz"), buf(&[1, 2, 3]))
    );
}

#[test]
fn events_are_published_on_the_own_channel() {
    let (router, _) = Router::open(b"abc");
    assert_eq!(router.publish(&[9, 9]), Package::Message(buf(b"abc"), buf(&[9, 9])));
    assert_eq!(router.publish(&[]), Package::Message(buf(b"abc"), buf(&[])));
}

#[test]
fn malformed_frame_closes_the_session() {
    let (router, _) = Router::open(b"abc");
    let mut wire = buf(&[0, 2, 9, 9]);
    let frame = Codec.decode(&mut wire).map(|p| p.unwrap());
    assert_eq!(router.on_frame(frame), Reaction::Close(CodecError::UnknownTag(9)));
    assert_eq!(
        router.on_frame(Err(CodecError::EmptyFrame)),
        Reaction::Close(CodecError::EmptyFrame)
    );
}

#[test]
fn well_formed_frame_is_reacted_to() {
    let (router, _) = Router::open(b"abc");
    assert_eq!(
        router.on_frame(Ok(Package::Ping(buf(&[7])))),
        Reaction::Send(Package::Pong(buf(&[7])))
    );
    assert_eq!(
        router.on_frame(Ok(Package::Message(buf(b"c"), buf(&[1])))),
        Reaction::Handle { channel: buf(b"c"), payload: buf(&[1]) }
    );
    assert_eq!(router.on_frame(Ok(Package::Pong(buf(&[7])))), Reaction::Nothing);
}
