use stem_sync::events::{fs_event_step, handle_fs_event, modify_event, FsStep, Notification};
use stem_sync::handler::FileKind;
use stem_sync::protocol::{EntityType, Protocol};

const CWD: &str = "/home/user/work";
const DIR: &str = "sync";

fn s(text: &str) -> String {
    text.to_string()
}

#[test]
fn created_file_is_published() {
    let event = Notification::Created { path: s("/home/user/work/sync/a.txt"), kind: FileKind::File };
    assert_eq!(
        handle_fs_event(event, CWD, DIR),
        FsStep::Send(Protocol::FsEventCreate { path: s("a.txt"), entity: EntityType::File })
    );
}

#[test]
fn created_directory_is_published() {
    let event =
        Notification::Created { path: s("/home/user/work/sync/a/b"), kind: FileKind::Directory };
    assert_eq!(
        handle_fs_event(event, CWD, DIR),
        FsStep::Send(Protocol::FsEventCreate { path: s("a/b"), entity: EntityType::Directory })
    );
}

#[test]
fn created_thing_of_another_kind_is_dropped() {
    for kind in [FileKind::Symlink, FileKind::Other] {
        let event = Notification::Created { path: s("/home/user/work/sync/x"), kind };
        assert_eq!(handle_fs_event(event, CWD, DIR), FsStep::Nothing);
    }
}

#[test]
fn changed_contents_are_hashed_first() {
    let event =
        Notification::Modified { path: s("/home/user/work/sync/a.txt"), data_changed: true };
    assert_eq!(
        handle_fs_event(event, CWD, DIR),
        FsStep::HashFile { file: s("/home/user/work/sync/a.txt"), path: s("a.txt") }
    );
}

#[test]
fn other_modifications_are_dropped() {
    let event =
        Notification::Modified { path: s("/home/user/work/sync/a.txt"), data_changed: false };
    assert_eq!(handle_fs_event(event, CWD, DIR), FsStep::Nothing);
}

#[test]
fn modify_event_carries_the_new_hash() {
    assert_eq!(
        modify_event(s("a.txt"), &Some(b"abc".to_vec())),
        Protocol::FsEventModify { path: s("a.txt"), hash: 0x44BC_2CF5_AD77_0999 }
    );
    assert_eq!(modify_event(s("a.txt"), &None), Protocol::FsEventModify { path: s("a.txt"), hash: 0 });
}

#[test]
fn renaming_is_published_with_both_names() {
    let event = Notification::Renamed {
        path_from: s("/home/user/work/sync/old"),
        path_to: s("/home/user/work/sync/dir/new"),
    };
    assert_eq!(
        handle_fs_event(event, CWD, DIR),
        FsStep::Send(Protocol::FsEventRename { path_from: s("old"), path_to: s("dir/new") })
    );
}

#[test]
fn renaming_out_of_the_directory_is_dropped() {
    let event = Notification::Renamed {
        path_from: s("/home/user/work/sync/old"),
        path_to: s("/home/user/elsewhere/new"),
    };
    assert_eq!(handle_fs_event(event, CWD, DIR), FsStep::Nothing);
}

#[test]
fn removal_is_published() {
    let event = Notification::Removed { path: s("/home/user/work/sync/gone") };
    assert_eq!(
        handle_fs_event(event, CWD, DIR),
        FsStep::Send(Protocol::FsEventDelete { path: s("gone") })
    );
}

#[test]
fn other_reports_are_dropped() {
    assert_eq!(handle_fs_event(Notification::Other, CWD, DIR), FsStep::Nothing);
}

#[test]
fn events_outside_the_directory_are_dropped() {
    for event in [
        Notification::Created { path: s("/home/user/work/other/a"), kind: FileKind::File },
        Notification::Modified { path: s("/home/user/work/sync2/a"), data_changed: true },
        Notification::Removed { path: s("/tmp/a") },
    ] {
        assert_eq!(handle_fs_event(event, CWD, DIR), FsStep::Nothing);
    }
}

#[test]
fn absolute_directory_replaces_the_working_directory() {
    let event = Notification::Removed { path: s("/srv/sync/a") };
    assert_eq!(
        handle_fs_event(event, CWD, "/srv/sync"),
        FsStep::Send(Protocol::FsEventDelete { path: s("a") })
    );
}

#[test]
fn step_from_relative_paths() {
    let event = Notification::Renamed { path_from: s("/x/a"), path_to: s("/x/b") };
    assert_eq!(
        fs_event_step(event.clone(), Some(s("a")), Some(s("b"))),
        FsStep::Send(Protocol::FsEventRename { path_from: s("a"), path_to: s("b") })
    );
    assert_eq!(fs_event_step(event.clone(), Some(s("a")), None), FsStep::Nothing);
    assert_eq!(fs_event_step(event, None, Some(s("b"))), FsStep::Nothing);
    let event = Notification::Modified { path: s("/x/a"), data_changed: true };
    assert_eq!(
        fs_event_step(event, Some(s("a")), None),
        FsStep::HashFile { file: s("/x/a"), path: s("a") }
    );
    assert_eq!(fs_event_step(Notification::Other, Some(s("a")), None), FsStep::Nothing);
}
