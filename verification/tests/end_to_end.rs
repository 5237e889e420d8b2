use ciborium::Value;
use stem_sync::codec::{Codec, Package};
use stem_sync::handler::{handle_message, list_response, DirItem, FileKind, Step};
use stem_sync::hash::hash_file;
use stem_sync::protocol::{EntityType, ListRespEntry, Protocol};
use stem_sync::router::{Reaction, Router};
use tokio_util::bytes::BytesMut;

const ROOT: &str = "/srv/sync";

fn text(s: &str) -> Value {
    Value::Text(s.to_string())
}

fn cbor(value: &Value) -> Vec<u8> {
    let mut out = Vec::new();
    ciborium::ser::into_writer(value, &mut out).unwrap();
    out
}

fn entity_name(entity: EntityType) -> &'static str {
    match entity {
        EntityType::File => "File",
        EntityType::Directory => "Directory",
        EntityType::Symlink => "Symlink",
    }
}

fn listing_value(entries: &[ListRespEntry]) -> Value {
    let entries = entries
        .iter()
        .map(|e| {
            Value::Map(vec![
                (text("path"), text(&e.path)),
                (text("hash"), Value::from(e.hash)),
                (text("entity"), text(entity_name(e.entity))),
            ])
        })
        .collect();
    Value::Map(vec![(text("type"), text("ListResp")), (text("entries"), Value::Array(entries))])
}

fn request_from(payload: &[u8]) -> Protocol {
    let value: Value = ciborium::de::from_reader(payload).unwrap();
    let fields = match value {
        Value::Map(fields) => fields,
        other => panic!("not a map: {:?}", other),
    };
    let field = |name: &str| {
        fields.iter().find(|(k, _)| *k == text(name)).and_then(|(_, v)| v.as_text()).unwrap()
    };
    match field("type") {
        "List" => Protocol::List { path: field("path").to_string() },
        "Get" => Protocol::Get { path: field("path").to_string() },
        "Ping" => Protocol::Ping,
        other => panic!("not a request: {}", other),
    }
}

fn frame(pkg: Package) -> Vec<u8> {
    let mut out = BytesMut::new();
    Codec.encode(pkg, &mut out).unwrap();
    out.to_vec()
}

#[test]
fn list_request_is_answered_on_its_channel() {
    let contents = b"hello, relay".to_vec();
    let hash = hash_file(&Some(contents.clone()));

    let (router, subscribe) = Router::open(b"abc");
    assert_eq!(frame(subscribe), vec![0, 5, 1, 3, b'a', b'b', b'c']);

    let request =
        cbor(&Value::Map(vec![(text("type"), text("List")), (text("path"), text("."))]));
    let mut wire = BytesMut::from(
        &frame(Package::Message(BytesMut::from(&b"abc"[..]), BytesMut::from(&request[..])))[..],
    );

    let packet = Codec.decode(&mut wire).unwrap().unwrap();
    assert!(wire.is_empty());
    let (channel, payload) = match router.on_packet(packet) {
        Reaction::Handle { channel, payload } => (channel, payload),
        other => panic!("not handed on: {:?}", other),
    };
    assert_eq!(&channel[..], b"abc");

    let dir = match handle_message(request_from(&payload), ROOT) {
        Step::ListDir { dir } => dir,
        other => panic!("nothing to list: {:?}", other),
    };
    assert_eq!(dir, ROOT);

    let found = vec![DirItem {
        path: format!("{}/a.txt", dir),
        kind: FileKind::File,
        contents: Some(contents),
    }];
    let entries = match list_response(ROOT, &found) {
        Some(Protocol::ListResp { entries }) => entries,
        other => panic!("no listing: {:?}", other),
    };
    let expected =
        vec![ListRespEntry { path: "a.txt".to_string(), hash, entity: EntityType::File }];
    assert_eq!(entries, expected);

    let answer = cbor(&listing_value(&entries));
    let reply = router.reply(channel, &answer);
    assert_eq!(
        reply,
        Package::Message(BytesMut::from(&b"abc"[..]), BytesMut::from(&answer[..]))
    );

    let sent = frame(reply);
    let body_len = 1 + 1 + 3 + answer.len();
    assert_eq!(sent.len(), 2 + body_len);
    assert_eq!(&sent[..2], &[(body_len / 256) as u8, (body_len % 256) as u8]);
    assert_eq!(&sent[2..7], &[0, 3, b'a', b'b', b'c']);
    assert_eq!(&sent[7..], &answer[..]);
}

#[test]
fn request_on_another_channel_is_answered_there() {
    let (router, _) = Router::open(b"abc");
    let request = cbor(&Value::Map(vec![(text("type"), text("Ping"))]));
    let packet = Package::Message(BytesMut::from(&b"other"[..]), BytesMut::from(&request[..]));
    let (channel, payload) = match router.on_packet(packet) {
        Reaction::Handle { channel, payload } => (channel, payload),
        other => panic!("not handed on: {:?}", other),
    };
    let answer = match handle_message(request_from(&payload), ROOT) {
        Step::Reply(message) => message,
        other => panic!("no answer: {:?}", other),
    };
    assert_eq!(answer, Protocol::Pong);
    let pong = cbor(&Value::Map(vec![(text("type"), text("Pong"))]));
    assert_eq!(
        router.reply(channel, &pong),
        Package::Message(BytesMut::from(&b"other"[..]), BytesMut::from(&pong[..]))
    );
}
