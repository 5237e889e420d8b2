//! The synchronisation protocol: the requests, answers and events that are
//! carried in the payloads of messages.

use vstd::prelude::*;

verus! {

/// What kind of thing a path names.
#[derive(Debug, Clone, Copy, PartialEq, Eq, Structural)]
pub enum EntityType {
    File,
    Directory,
    Symlink,
}

/// One child of a listed directory.
#[derive(Debug, Clone, PartialEq, Eq)]
pub struct ListRespEntry {
    /// The child's path, relative to the synchronised directory.
    pub path: String,
    /// The hash of the child's contents; 0 where they could not be read.
    pub hash: u64,
    /// What the child is.
    pub entity: EntityType,
}

/// A [`ListRespEntry`] with its path as text.
pub struct EntryView {
    pub path: Seq<char>,
    pub hash: u64,
    pub entity: EntityType,
}

impl View for ListRespEntry {
    type V = EntryView;

    open spec fn view(&self) -> EntryView {
        EntryView { path: self.path@, hash: self.hash, entity: self.entity }
    }
}

/// The entries of a listing, each by its view.
pub open spec fn entries_view(entries: Seq<ListRespEntry>) -> Seq<EntryView> {
    entries.map_values(|e: ListRespEntry| e@)
}

/// A message of the synchronisation protocol. Paths are relative to the
/// synchronised directory.
#[derive(Debug, Clone, PartialEq, Eq)]
pub enum Protocol {
    /// Asks for a `Pong`.
    Ping,
    /// Answers a `Ping`.
    Pong,
    /// Asks for the children of a directory.
    List { path: String },
    /// The children of a directory, in no particular order.
    ListResp { entries: Vec<ListRespEntry> },
    /// Asks for the contents of a file.
    Get { path: String },
    /// The contents of a file.
    GetResp { path: String, contents: Vec<u8> },
    /// Something was created.
    FsEventCreate { path: String, entity: EntityType },
    /// The contents of a file changed; `hash` is that of the new contents.
    FsEventModify { path: String, hash: u64 },
    /// Something was renamed.
    FsEventRename { path_from: String, path_to: String },
    /// Something was removed.
    FsEventDelete { path: String },
    /// Something happened that has no event of its own.
    FsEventUnknown { path: String, entity: EntityType, hash: u64 },
}

/// A [`Protocol`] message with its paths as text and its bytes as sequences.
pub enum ProtocolView {
    Ping,
    Pong,
    List { path: Seq<char> },
    ListResp { entries: Seq<EntryView> },
    Get { path: Seq<char> },
    GetResp { path: Seq<char>, contents: Seq<u8> },
    FsEventCreate { path: Seq<char>, entity: EntityType },
    FsEventModify { path: Seq<char>, hash: u64 },
    FsEventRename { path_from: Seq<char>, path_to: Seq<char> },
    FsEventDelete { path: Seq<char> },
    FsEventUnknown { path: Seq<char>, entity: EntityType, hash: u64 },
}

impl View for Protocol {
    type V = ProtocolView;

    open spec fn view(&self) -> ProtocolView {
        match *self {
            Protocol::Ping => ProtocolView::Ping,
            Protocol::Pong => ProtocolView::Pong,
            Protocol::List { path } => ProtocolView::List { path: path@ },
            Protocol::ListResp { entries } => ProtocolView::ListResp {
                entries: entries_view(entries@),
            },
            Protocol::Get { path } => ProtocolView::Get { path: path@ },
            Protocol::GetResp { path, contents } => ProtocolView::GetResp {
                path: path@,
                contents: contents@,
            },
            Protocol::FsEventCreate { path, entity } => ProtocolView::FsEventCreate {
                path: path@,
                entity,
            },
            Protocol::FsEventModify { path, hash } => ProtocolView::FsEventModify {
                path: path@,
                hash,
            },
            Protocol::FsEventRename { path_from, path_to } => ProtocolView::FsEventRename {
                path_from: path_from@,
                path_to: path_to@,
            },
            Protocol::FsEventDelete { path } => ProtocolView::FsEventDelete { path: path@ },
            Protocol::FsEventUnknown { path, entity, hash } => ProtocolView::FsEventUnknown {
                path: path@,
                entity,
                hash,
            },
        }
    }
}

/// The view of a message that may be absent.
pub open spec fn message_view(message: Option<Protocol>) -> Option<ProtocolView> {
    match message {
        Some(message) => Some(message@),
        None => None,
    }
}

} // verus!
