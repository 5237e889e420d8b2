//! Turning notifications of changes in the synchronised directory into the
//! events that the agent publishes.

use crate::handler::FileKind;
use crate::hash::{file_hash, hash_file, read_view};
use crate::paths::{
    join_path, joined_path, path_has_prefix, path_without_prefix, strip_path_prefix,
};
use crate::protocol::{EntityType, Protocol, ProtocolView};
use vstd::prelude::*;

verus! {

/// A change that the watcher of the directory reports. Paths are full paths,
/// as the watcher gives them.
#[derive(Debug, Clone, PartialEq, Eq)]
pub enum Notification {
    /// Something of the given kind was created.
    Created { path: String, kind: FileKind },
    /// Something was modified; `data_changed` says whether its contents were.
    Modified { path: String, data_changed: bool },
    /// Something was renamed, and both names are known.
    Renamed { path_from: String, path_to: String },
    /// Something was removed.
    Removed { path: String },
    /// Any other report.
    Other,
}

/// A [`Notification`] with its paths as text.
pub enum NotificationView {
    Created { path: Seq<char>, kind: FileKind },
    Modified { path: Seq<char>, data_changed: bool },
    Renamed { path_from: Seq<char>, path_to: Seq<char> },
    Removed { path: Seq<char> },
    Other,
}

impl View for Notification {
    type V = NotificationView;

    open spec fn view(&self) -> NotificationView {
        match *self {
            Notification::Created { path, kind } => NotificationView::Created { path: path@, kind },
            Notification::Modified { path, data_changed } => NotificationView::Modified {
                path: path@,
                data_changed,
            },
            Notification::Renamed { path_from, path_to } => NotificationView::Renamed {
                path_from: path_from@,
                path_to: path_to@,
            },
            Notification::Removed { path } => NotificationView::Removed { path: path@ },
            Notification::Other => NotificationView::Other,
        }
    }
}

/// What a notification asks the caller to do next.
#[derive(Debug, Clone, PartialEq, Eq)]
pub enum FsStep {
    /// Publish this event.
    Send(Protocol),
    /// Read the file `file` and hand its bytes, with `path`, to
    /// [`modify_event`]; publish what it returns.
    HashFile { file: String, path: String },
    /// Publish nothing.
    Nothing,
}

/// An [`FsStep`] with its paths as text.
pub enum FsStepView {
    Send(ProtocolView),
    HashFile { file: Seq<char>, path: Seq<char> },
    Nothing,
}

impl View for FsStep {
    type V = FsStepView;

    open spec fn view(&self) -> FsStepView {
        match *self {
            FsStep::Send(message) => FsStepView::Send(message@),
            FsStep::HashFile { file, path } => FsStepView::HashFile { file: file@, path: path@ },
            FsStep::Nothing => FsStepView::Nothing,
        }
    }
}

/// A path as text, where there is one.
pub open spec fn path_view(path: Option<String>) -> Option<Seq<char>> {
    match path {
        Some(p) => Some(p@),
        None => None,
    }
}

/// `path` relative to `base`, where it lies under `base`.
pub open spec fn relative_path(path: Seq<char>, base: Seq<char>) -> Option<Seq<char>> {
    if path_has_prefix(path, base) {
        Some(path_without_prefix(path, base))
    } else {
        None
    }
}

/// The path that a notification is about; for a renaming, the old name.
pub open spec fn first_path(event: NotificationView) -> Option<Seq<char>> {
    match event {
        NotificationView::Created { path, .. } => Some(path),
        NotificationView::Modified { path, .. } => Some(path),
        NotificationView::Renamed { path_from, .. } => Some(path_from),
        NotificationView::Removed { path } => Some(path),
        NotificationView::Other => None,
    }
}

/// The new name of a renaming.
pub open spec fn second_path(event: NotificationView) -> Option<Seq<char>> {
    match event {
        NotificationView::Renamed { path_to, .. } => Some(path_to),
        _ => None,
    }
}

/// The step for a notification whose paths, taken relative to the watched
/// directory, are `first` and `second`; `None` stands for a path that does
/// not lie under that directory, or that the notification does not have.
///
/// A created file or directory, a renaming and a removal are published as
/// they are. A change of contents is published with the hash of the new
/// contents, which have to be read first. Everything else is dropped: the
/// creation of anything but a file or a directory, a modification that left
/// the contents alone, any other report, and whatever lies outside the
/// watched directory.
pub open spec fn fs_step_for(
    event: NotificationView,
    first: Option<Seq<char>>,
    second: Option<Seq<char>>,
) -> FsStepView {
    match (event, first) {
        (NotificationView::Created { kind: FileKind::File, .. }, Some(path)) => FsStepView::Send(
            ProtocolView::FsEventCreate { path, entity: EntityType::File },
        ),
        (NotificationView::Created { kind: FileKind::Directory, .. }, Some(path)) => {
            FsStepView::Send(ProtocolView::FsEventCreate { path, entity: EntityType::Directory })
        },
        (NotificationView::Modified { path: file, data_changed: true }, Some(path)) => {
            FsStepView::HashFile { file, path }
        },
        (NotificationView::Renamed { .. }, Some(path_from)) => match second {
            Some(path_to) => FsStepView::Send(ProtocolView::FsEventRename { path_from, path_to }),
            None => FsStepView::Nothing,
        },
        (NotificationView::Removed { .. }, Some(path)) => FsStepView::Send(
            ProtocolView::FsEventDelete { path },
        ),
        _ => FsStepView::Nothing,
    }
}

/// Decides what a notification asks for, given its paths relative to the
/// watched directory.
pub fn fs_event_step(event: Notification, first: Option<String>, second: Option<String>) -> (step:
    FsStep)
    ensures
        step@ == fs_step_for(event@, path_view(first), path_view(second)),
{
    let path = match first {
        Some(path) => path,
        None => {
            return FsStep::Nothing;
        },
    };
    match event {
        Notification::Created { path: _, kind } => match kind {
            FileKind::File => FsStep::Send(
                Protocol::FsEventCreate { path, entity: EntityType::File },
            ),
            FileKind::Directory => FsStep::Send(
                Protocol::FsEventCreate { path, entity: EntityType::Directory },
            ),
            _ => FsStep::Nothing,
        },
        Notification::Modified { path: file, data_changed } => {
            if data_changed {
                FsStep::HashFile { file, path }
            } else {
                FsStep::Nothing
            }
        },
        Notification::Renamed { .. } => match second {
            Some(path_to) => FsStep::Send(Protocol::FsEventRename { path_from: path, path_to }),
            None => FsStep::Nothing,
        },
        Notification::Removed { .. } => FsStep::Send(Protocol::FsEventDelete { path }),
        Notification::Other => FsStep::Nothing,
    }
}

/// A path of a notification relative to `base`, where the notification has
/// that path and it lies under `base`.
pub open spec fn relative_to(path: Option<Seq<char>>, base: Seq<char>) -> Option<Seq<char>> {
    match path {
        Some(p) => relative_path(p, base),
        None => None,
    }
}

/// Decides what a notification asks for.
///
/// The watched directory is `syncdir` adjoined to the working directory
/// `cwd`; the paths of the events are relative to it.
pub fn handle_fs_event(event: Notification, cwd: &str, syncdir: &str) -> (step: FsStep)
    ensures
        step@ == fs_step_for(
            event@,
            relative_to(first_path(event@), joined_path(cwd@, syncdir@)),
            relative_to(second_path(event@), joined_path(cwd@, syncdir@)),
        ),
{
    let base = join_path(cwd, syncdir);
    let first = match &event {
        Notification::Created { path, .. } => strip_path_prefix(path.as_str(), base.as_str()),
        Notification::Modified { path, .. } => strip_path_prefix(path.as_str(), base.as_str()),
        Notification::Renamed { path_from, .. } => strip_path_prefix(
            path_from.as_str(),
            base.as_str(),
        ),
        Notification::Removed { path } => strip_path_prefix(path.as_str(), base.as_str()),
        Notification::Other => None,
    };
    let second = match &event {
        Notification::Renamed { path_to, .. } => strip_path_prefix(
            path_to.as_str(),
            base.as_str(),
        ),
        _ => None,
    };
    fs_event_step(event, first, second)
}

/// The event that reports a change of the contents of `path`, given what
/// reading the file gave: a file that could not be read is reported with
/// hash 0.
pub fn modify_event(path: String, read: &Option<Vec<u8>>) -> (event: Protocol)
    ensures
        event@ == (ProtocolView::FsEventModify { path: path@, hash: file_hash(read_view(*read)) }),
{
    Protocol::FsEventModify { path, hash: hash_file(read) }
}

} // verus!
