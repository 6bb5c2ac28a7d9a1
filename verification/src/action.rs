//! The operations that the library asks its caller to perform.
//!
//! An action says everything the caller needs: which path, which id, which
//! flags. The caller decides nothing; it performs the action and reports
//! whether it succeeded.

use crate::notifications::desktop::{Notification, NotificationView};
use vstd::prelude::*;

verus! {

/// Permission bits of a fresh mount point: `rwxrwxr-x`.
pub const MOUNT_POINT_MODE: u32 = 0o775;

/// One operation on the system, with all its arguments.
#[derive(Debug, PartialEq, Eq)]
pub enum Action {
    /// Show the notification, if a desktop is there to show it.
    Notify(Notification),
    /// Create the directory `path`. Its parent exists already.
    CreateDir { path: String },
    /// Set the permission bits of `path` to `mode`.
    SetMode { path: String, mode: u32 },
    /// Make user `uid` the owner of `path`.
    SetOwner { path: String, uid: u32 },
    /// Make group `gid` the group of `path`.
    SetGroup { path: String, gid: u32 },
    /// Remove the empty directory `path`, without looking first whether it
    /// exists.
    RemoveDir { path: String },
    /// Ask the kernel which filesystem types it can detect by itself.
    QueryFilesystems,
    /// Mount `source` at `target`. The filesystem type is detected among
    /// those that the query before this action reported.
    Mount {
        source: String,
        target: String,
        /// Device files inside the mount are not interpreted.
        no_device_files: bool,
        /// Set-uid and set-gid bits inside the mount are not honoured.
        no_set_uid: bool,
    },
    /// Unmount `target`. With `force`, a target that is not mounted is no
    /// error.
    Unmount { target: String, force: bool },
}

/// An `Action` as plain values.
pub enum ActionView {
    Notify(NotificationView),
    CreateDir { path: Seq<char> },
    SetMode { path: Seq<char>, mode: u32 },
    SetOwner { path: Seq<char>, uid: u32 },
    SetGroup { path: Seq<char>, gid: u32 },
    RemoveDir { path: Seq<char> },
    QueryFilesystems,
    Mount { source: Seq<char>, target: Seq<char>, no_device_files: bool, no_set_uid: bool },
    Unmount { target: Seq<char>, force: bool },
}

impl View for Action {
    type V = ActionView;

    open spec fn view(&self) -> ActionView {
        match self {
            Action::Notify(note) => ActionView::Notify(note@),
            Action::CreateDir { path } => ActionView::CreateDir { path: path@ },
            Action::SetMode { path, mode } => ActionView::SetMode { path: path@, mode: *mode },
            Action::SetOwner { path, uid } => ActionView::SetOwner { path: path@, uid: *uid },
            Action::SetGroup { path, gid } => ActionView::SetGroup { path: path@, gid: *gid },
            Action::RemoveDir { path } => ActionView::RemoveDir { path: path@ },
            Action::QueryFilesystems => ActionView::QueryFilesystems,
            Action::Mount { source, target, no_device_files, no_set_uid } => ActionView::Mount {
                source: source@,
                target: target@,
                no_device_files: *no_device_files,
                no_set_uid: *no_set_uid,
            },
            Action::Unmount { target, force } => ActionView::Unmount {
                target: target@,
                force: *force,
            },
        }
    }
}

} // verus!
