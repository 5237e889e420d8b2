//! Answering requests of the synchronisation protocol.
//!
//! The library never touches the file system. A request is first turned into
//! a [`Step`]: an answer that needs nothing more, or the one thing to read in
//! the synchronised directory. What was read comes back as plain values, and
//! [`list_response`] or [`get_response`] forms the answer from it. No answer
//! is the only sign of refusal: there is no error message in the protocol.
//! A payload that is no message at all ends the session.

use crate::hash::{file_hash, hash_file, read_view};
use crate::paths::{
    path_escapes_dir, path_has_prefix, path_without_prefix, resolve_path, resolved_path,
    strip_path_prefix,
};
use crate::protocol::{EntityType, EntryView, ListRespEntry, Protocol, ProtocolView, message_view};
use vstd::prelude::*;

verus! {

/// What the file system says that a directory entry is.
#[derive(Debug, Clone, Copy, PartialEq, Eq, Structural)]
pub enum FileKind {
    File,
    Directory,
    Symlink,
    /// None of the three: a socket, a device, a pipe.
    Other,
}

/// One child of a directory, as it was found: its full path, what it is, and
/// its bytes, or `None` where reading it failed.
#[derive(Debug, Clone, PartialEq, Eq)]
pub struct DirItem {
    pub path: String,
    pub kind: FileKind,
    pub contents: Option<Vec<u8>>,
}

/// A [`DirItem`] with its path as text and its bytes as a sequence.
pub struct DirItemView {
    pub path: Seq<char>,
    pub kind: FileKind,
    pub contents: Option<Seq<u8>>,
}

impl View for DirItem {
    type V = DirItemView;

    open spec fn view(&self) -> DirItemView {
        DirItemView { path: self.path@, kind: self.kind, contents: read_view(self.contents) }
    }
}

/// What a request asks the caller to do next.
#[derive(Debug, Clone, PartialEq, Eq)]
pub enum Step {
    /// Send this answer.
    Reply(Protocol),
    /// Read the children of the directory `dir` and hand them to
    /// [`list_response`].
    ListDir { dir: String },
    /// Read the file `file` and hand its bytes, with `path`, to
    /// [`get_response`].
    ReadFile { file: String, path: String },
    /// Send nothing.
    Nothing,
    /// End the session: a payload that is no message of the protocol was
    /// received.
    Close,
}

/// A [`Step`] with its paths as text.
pub enum StepView {
    Reply(ProtocolView),
    ListDir { dir: Seq<char> },
    ReadFile { file: Seq<char>, path: Seq<char> },
    Nothing,
    Close,
}

impl View for Step {
    type V = StepView;

    open spec fn view(&self) -> StepView {
        match *self {
            Step::Reply(message) => StepView::Reply(message@),
            Step::ListDir { dir } => StepView::ListDir { dir: dir@ },
            Step::ReadFile { file, path } => StepView::ReadFile { file: file@, path: path@ },
            Step::Nothing => StepView::Nothing,
            Step::Close => StepView::Close,
        }
    }
}

/// The entity that a listing reports for a kind of directory entry: what is
/// none of the three kinds counts as a file.
pub open spec fn entity_for(kind: FileKind) -> EntityType {
    match kind {
        FileKind::File => EntityType::File,
        FileKind::Directory => EntityType::Directory,
        FileKind::Symlink => EntityType::Symlink,
        FileKind::Other => EntityType::File,
    }
}

/// Classifies a directory entry.
pub fn entity_of(kind: FileKind) -> (entity: EntityType)
    ensures
        entity == entity_for(kind),
{
    match kind {
        FileKind::File => EntityType::File,
        FileKind::Directory => EntityType::Directory,
        FileKind::Symlink => EntityType::Symlink,
        FileKind::Other => EntityType::File,
    }
}

/// Whether the path that a request for `rel` means lies outside `root`.
pub open spec fn escapes_root(root: Seq<char>, rel: Seq<char>) -> bool {
    !path_has_prefix(resolved_path(root, rel), root)
}

/// The path to read for a request: the resolved one, unless it escapes.
pub open spec fn guarded(resolved: Seq<char>, escapes: bool) -> Option<Seq<char>> {
    if escapes {
        None
    } else {
        Some(resolved)
    }
}

/// Lets a resolved path through only if it does not escape.
pub fn guard_path(resolved: String, escapes: bool) -> (inside: Option<String>)
    ensures
        inside is Some <==> !escapes,
        inside matches Some(p) ==> p@ == resolved@,
{
    if escapes {
        None
    } else {
        Some(resolved)
    }
}

/// Resolves a requested path against the root and refuses it if the result
/// lies outside the root.
pub fn locate(root: &str, rel: &str) -> (inside: Option<String>)
    ensures
        inside is Some <==> !escapes_root(root@, rel@),
        inside matches Some(p) ==> p@ == resolved_path(root@, rel@),
{
    let resolved = resolve_path(root, rel);
    let escapes = path_escapes_dir(resolved.as_str(), root);
    guard_path(resolved, escapes)
}

/// The step that a request asks for under the root `root`.
///
/// A ping is answered at once. A listing or a file is read at the resolved
/// path, unless that path escapes the root: then nothing is sent. Every
/// other message, answers and events among them, is met with silence.
pub open spec fn step_for(message: ProtocolView, root: Seq<char>) -> StepView {
    match message {
        ProtocolView::Ping => StepView::Reply(ProtocolView::Pong),
        ProtocolView::List { path } => if escapes_root(root, path) {
            StepView::Nothing
        } else {
            StepView::ListDir { dir: resolved_path(root, path) }
        },
        ProtocolView::Get { path } => if escapes_root(root, path) {
            StepView::Nothing
        } else {
            StepView::ReadFile { file: resolved_path(root, path), path }
        },
        _ => StepView::Nothing,
    }
}

/// Decides what a request asks for.
pub fn handle_message(message: Protocol, syncdir: &str) -> (step: Step)
    ensures
        step@ == step_for(message@, syncdir@),
{
    match message {
        Protocol::Ping => Step::Reply(Protocol::Pong),
        Protocol::List { path } => {
            match locate(syncdir, path.as_str()) {
                Some(dir) => Step::ListDir { dir },
                None => Step::Nothing,
            }
        },
        Protocol::Get { path } => {
            match locate(syncdir, path.as_str()) {
                Some(file) => Step::ReadFile { file, path },
                None => Step::Nothing,
            }
        },
        _ => Step::Nothing,
    }
}

/// The step for a payload, given what it was read as: a message is handled,
/// and a payload that could not be read as a message ends the session, as a
/// malformed frame does.
pub open spec fn step_for_payload(decoded: Option<ProtocolView>, root: Seq<char>) -> StepView {
    match decoded {
        Some(message) => step_for(message, root),
        None => StepView::Close,
    }
}

/// Decides what the payload of a message asks for, given what it was read
/// as; `None` stands for a payload that is no message of the protocol.
pub fn handle_payload(decoded: Option<Protocol>, syncdir: &str) -> (step: Step)
    ensures
        step@ == step_for_payload(message_view(decoded), syncdir@),
{
    match decoded {
        Some(message) => handle_message(message, syncdir),
        None => Step::Close,
    }
}

/// The entry that a listing holds for a child whose path relative to the
/// root is `rel`.
pub open spec fn entry_for(rel: Seq<char>, item: DirItemView) -> EntryView {
    EntryView { path: rel, hash: file_hash(item.contents), entity: entity_for(item.kind) }
}

/// Forms the entry of one child from its relative path.
pub fn list_entry(rel: String, item: &DirItem) -> (entry: ListRespEntry)
    ensures
        entry@ == entry_for(rel@, item@),
{
    ListRespEntry { path: rel, hash: hash_file(&item.contents), entity: entity_of(item.kind) }
}

/// The children that were found, each by its view.
pub open spec fn items_view(items: Seq<DirItem>) -> Seq<DirItemView> {
    items.map_values(|item: DirItem| item@)
}

/// Whether every child lies under `root`.
pub open spec fn all_under(root: Seq<char>, items: Seq<DirItemView>) -> bool {
    forall|i: int| 0 <= i < items.len() ==> path_has_prefix(#[trigger] items[i].path, root)
}

/// The entry of a child that lies under `root`.
pub open spec fn item_entry(root: Seq<char>, item: DirItemView) -> EntryView {
    entry_for(path_without_prefix(item.path, root), item)
}

/// The entries of a listing of `items`: one for each child, in the order
/// given, with the child's path taken relative to `root`.
pub open spec fn listing(root: Seq<char>, items: Seq<DirItemView>) -> Seq<EntryView> {
    items.map_values(|item: DirItemView| item_entry(root, item))
}

/// Forms the answer to a listing from the children that were found.
///
/// The answer holds one entry for each child. If a child does not lie under
/// the root, there is no answer.
pub fn list_response(syncdir: &str, items: &Vec<DirItem>) -> (answer: Option<Protocol>)
    ensures
        answer is Some <==> all_under(syncdir@, items_view(items@)),
        answer matches Some(message) ==> message@ == (ProtocolView::ListResp {
            entries: listing(syncdir@, items_view(items@)),
        }),
{
    let mut entries: Vec<ListRespEntry> = Vec::new();
    let mut i: usize = 0;
    while i < items.len()
        invariant
            i <= items.len(),
            entries.len() == i,
            forall|k: int| 0 <= k < i ==> path_has_prefix(#[trigger] items[k].path@, syncdir@),
            forall|k: int| 0 <= k < i ==> (#[trigger] entries[k])@ == item_entry(syncdir@, items[k]@),
        decreases items.len() - i,
    {
        match strip_path_prefix(items[i].path.as_str(), syncdir) {
            Some(rel) => {
                entries.push(list_entry(rel, &items[i]));
            },
            None => {
                assert(!path_has_prefix(items_view(items@)[i as int].path, syncdir@));
                return None;
            },
        }
        i += 1;
    }
    let answer = Protocol::ListResp { entries };
    assert(answer@->ListResp_entries =~= listing(syncdir@, items_view(items@)));
    assert forall|k: int| 0 <= k < items.len() implies path_has_prefix(
        #[trigger] items_view(items@)[k].path,
        syncdir@,
    ) by {
        assert(path_has_prefix(items[k].path@, syncdir@));
    }
    Some(answer)
}

/// A request whose path escapes the root gets no answer and has nothing
/// read for it, whether it asks for a listing or for a file.
pub proof fn lemma_escape_is_silent(message: ProtocolView, root: Seq<char>)
    requires
        (message matches ProtocolView::List { path } && escapes_root(root, path)) || (
        message matches ProtocolView::Get { path } && escapes_root(root, path)),
    ensures
        step_for(message, root) == StepView::Nothing,
{
}

/// Whether every child lies under the root does not depend on the order of
/// the children.
proof fn lemma_all_under_ignores_order(
    root: Seq<char>,
    first: Seq<DirItemView>,
    second: Seq<DirItemView>,
)
    requires
        first.to_multiset() == second.to_multiset(),
        all_under(root, first),
    ensures
        all_under(root, second),
{
    first.to_multiset_ensures();
    second.to_multiset_ensures();
    assert forall|i: int| 0 <= i < second.len() implies path_has_prefix(
        #[trigger] second[i].path,
        root,
    ) by {
        let item = second[i];
        assert(second.contains(item));
        assert(first.to_multiset().count(item) > 0);
        let k = choose|k: int| 0 <= k < first.len() && first[k] == item;
        assert(path_has_prefix(first[k].path, root));
    }
}

/// A listing depends on the children that were found and on nothing else,
/// not even on the order in which they were found: the same children in
/// another order give an answer if and only if they did before, with the
/// same entries, each as often as before.
pub proof fn lemma_listing_ignores_order(
    root: Seq<char>,
    first: Seq<DirItemView>,
    second: Seq<DirItemView>,
)
    requires
        first.to_multiset() == second.to_multiset(),
    ensures
        all_under(root, first) == all_under(root, second),
        listing(root, first).to_multiset() == listing(root, second).to_multiset(),
    decreases first.len(),
{
    if all_under(root, first) {
        lemma_all_under_ignores_order(root, first, second);
    }
    if all_under(root, second) {
        lemma_all_under_ignores_order(root, second, first);
    }
    first.to_multiset_ensures();
    second.to_multiset_ensures();
    if first.len() == 0 {
        assert(listing(root, first) =~= listing(root, second));
    } else {
        let last = first.last();
        assert(first.contains(last));
        assert(second.to_multiset().count(last) > 0);
        let j = choose|j: int| 0 <= j < second.len() && second[j] == last;
        let shorter = first.drop_last();
        let other = second.remove(j);
        assert(shorter =~= first.remove(first.len() - 1));
        vstd::seq_lib::to_multiset_remove(first, first.len() - 1);
        vstd::seq_lib::to_multiset_remove(second, j);
        lemma_listing_ignores_order(root, shorter, other);
        let entry = item_entry(root, last);
        assert(listing(root, first) =~= listing(root, shorter).push(entry));
        assert(listing(root, second) =~= listing(root, other).insert(j, entry));
        vstd::seq_lib::to_multiset_build(listing(root, shorter), entry);
        vstd::seq_lib::to_multiset_insert(listing(root, other), j, entry);
    }
}

/// The answer to a request for the file `path`, given what reading it gave:
/// the bytes as they were read, or no answer where reading failed.
pub open spec fn get_answer(path: Seq<char>, read: Option<Seq<u8>>) -> Option<ProtocolView> {
    match read {
        Some(contents) => Some(ProtocolView::GetResp { path, contents }),
        None => None,
    }
}

/// Forms the answer to a request for a file from what reading it gave.
pub fn get_response(path: String, read: Option<Vec<u8>>) -> (answer: Option<Protocol>)
    ensures
        message_view(answer) == get_answer(path@, read_view(read)),
{
    match read {
        Some(contents) => Some(Protocol::GetResp { path, contents }),
        None => None,
    }
}

} // verus!
