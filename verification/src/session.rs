//! One device event, from its first operation to its outcome.
//!
//! A session is a small state machine. It names the operation that is due;
//! the caller performs it and reports whether it succeeded; the session moves
//! on to the next stage. The stages are passed in one fixed order, so a
//! session ends after a bounded number of operations.

use crate::action::{Action, ActionView, MOUNT_POINT_MODE};
use crate::device::device_name;
use crate::notifications::desktop::{notice, notify};
use vstd::prelude::*;
use vstd::string::StringExecFns;

verus! {

/// Why the handling of an event was given up.
#[derive(Clone, Copy, Debug, PartialEq, Eq, Structural)]
pub enum EventError {
    /// The path does not name a supported partition node.
    WrongDeviceName,
    /// The mount point could not be created.
    CreateDirFailed,
    /// The permission bits of the mount point could not be set.
    SetModeFailed,
    /// The kernel did not say which filesystems it supports.
    FilesystemQueryFailed,
    /// The mount point could not be removed.
    RemoveDirFailed,
}

impl EventError {
    /// The words that report this failure.
    pub open spec fn spec_message(&self) -> Seq<char> {
        match self {
            EventError::WrongDeviceName => "wrong device name"@,
            EventError::CreateDirFailed => "can't create the mount point"@,
            EventError::SetModeFailed => "can't set the mode of the mount point"@,
            EventError::FilesystemQueryFailed => "filesystem not supported"@,
            EventError::RemoveDirFailed => "can't remove the mount point"@,
        }
    }

    /// The words that report this failure.
    pub fn message(&self) -> (text: &'static str)
        ensures
            text@ == self.spec_message(),
    {
        match self {
            EventError::WrongDeviceName => "wrong device name",
            EventError::CreateDirFailed => "can't create the mount point",
            EventError::SetModeFailed => "can't set the mode of the mount point",
            EventError::FilesystemQueryFailed => "filesystem not supported",
            EventError::RemoveDirFailed => "can't remove the mount point",
        }
    }
}

/// Where a session stands: the operation that is due, or how it ended.
#[derive(Clone, Copy, Debug, PartialEq, Eq, Structural)]
pub enum Stage {
    /// A device appeared: tell the user.
    Announce,
    /// Create the mount point.
    CreateDir,
    /// Set the permission bits of the mount point.
    SetMode,
    /// Hand the device node to the configured user.
    SetOwner,
    /// The owner could not be set: remove the mount point.
    OwnerCleanup,
    /// Hand the device node to the configured group.
    SetGroup,
    /// The group could not be set: remove the mount point.
    GroupCleanup,
    /// Ask which filesystems the kernel supports.
    QueryFilesystems,
    /// Mount the device.
    Mount,
    /// A device disappeared: tell the user.
    AnnounceRemoval,
    /// Unmount the mount point.
    Unmount,
    /// Remove the mount point.
    RemoveDir,
    /// The event is handled.
    Done,
    /// The event was given up.
    Failed(EventError),
}

impl Stage {
    /// No operation is due any more.
    pub open spec fn is_finished(self) -> bool {
        self is Done || self is Failed
    }

    /// The stage that follows once the operation of this stage has succeeded
    /// or failed. Notices and cleanups are best effort: their failure changes
    /// nothing. So is the mount itself, and the unmount. A failure to set the
    /// owner or the group leads to a cleanup and then on to the next stage.
    pub open spec fn next(self, succeeded: bool) -> Stage {
        match self {
            Stage::Announce => Stage::CreateDir,
            Stage::CreateDir => if succeeded {
                Stage::SetMode
            } else {
                Stage::Failed(EventError::CreateDirFailed)
            },
            Stage::SetMode => if succeeded {
                Stage::SetOwner
            } else {
                Stage::Failed(EventError::SetModeFailed)
            },
            Stage::SetOwner => if succeeded {
                Stage::SetGroup
            } else {
                Stage::OwnerCleanup
            },
            Stage::OwnerCleanup => Stage::SetGroup,
            Stage::SetGroup => if succeeded {
                Stage::QueryFilesystems
            } else {
                Stage::GroupCleanup
            },
            Stage::GroupCleanup => Stage::QueryFilesystems,
            Stage::QueryFilesystems => if succeeded {
                Stage::Mount
            } else {
                Stage::Failed(EventError::FilesystemQueryFailed)
            },
            Stage::Mount => Stage::Done,
            Stage::AnnounceRemoval => Stage::Unmount,
            Stage::Unmount => Stage::RemoveDir,
            Stage::RemoveDir => if succeeded {
                Stage::Done
            } else {
                Stage::Failed(EventError::RemoveDirFailed)
            },
            Stage::Done => Stage::Done,
            Stage::Failed(e) => Stage::Failed(e),
        }
    }

    /// An upper bound on the operations that are still to come, this stage's
    /// own included.
    pub open spec fn operations_left(self) -> nat {
        match self {
            Stage::Announce => 9,
            Stage::CreateDir => 8,
            Stage::SetMode => 7,
            Stage::SetOwner => 6,
            Stage::OwnerCleanup => 5,
            Stage::SetGroup => 4,
            Stage::GroupCleanup => 3,
            Stage::QueryFilesystems => 2,
            Stage::Mount => 1,
            Stage::AnnounceRemoval => 3,
            Stage::Unmount => 2,
            Stage::RemoveDir => 1,
            Stage::Done => 0,
            Stage::Failed(_) => 0,
        }
    }

    /// Computes `next`.
    fn follow(self, succeeded: bool) -> (next: Stage)
        ensures
            next == self.next(succeeded),
    {
        match self {
            Stage::Announce => Stage::CreateDir,
            Stage::CreateDir => if succeeded {
                Stage::SetMode
            } else {
                Stage::Failed(EventError::CreateDirFailed)
            },
            Stage::SetMode => if succeeded {
                Stage::SetOwner
            } else {
                Stage::Failed(EventError::SetModeFailed)
            },
            Stage::SetOwner => if succeeded {
                Stage::SetGroup
            } else {
                Stage::OwnerCleanup
            },
            Stage::OwnerCleanup => Stage::SetGroup,
            Stage::SetGroup => if succeeded {
                Stage::QueryFilesystems
            } else {
                Stage::GroupCleanup
            },
            Stage::GroupCleanup => Stage::QueryFilesystems,
            Stage::QueryFilesystems => if succeeded {
                Stage::Mount
            } else {
                Stage::Failed(EventError::FilesystemQueryFailed)
            },
            Stage::Mount => Stage::Done,
            Stage::AnnounceRemoval => Stage::Unmount,
            Stage::Unmount => Stage::RemoveDir,
            Stage::RemoveDir => if succeeded {
                Stage::Done
            } else {
                Stage::Failed(EventError::RemoveDirFailed)
            },
            Stage::Done => Stage::Done,
            Stage::Failed(e) => Stage::Failed(e),
        }
    }
}

/// The mount point of `device` under `workdir`: the two joined by one `/`.
pub open spec fn mount_point_of(workdir: Seq<char>, device: Seq<char>) -> Seq<char> {
    workdir + seq!['/'] + device
}

/// A session as plain values.
pub struct SessionView {
    /// Where the session stands.
    pub stage: Stage,
    /// Path of the device node, as the event gave it.
    pub source: Seq<char>,
    /// Name of the device.
    pub device: Seq<char>,
    /// The directory under which mount points are made.
    pub workdir: Seq<char>,
    /// The user who is to own the device node. Unused after a removal.
    pub uid: u32,
    /// The group that is to own the device node. Unused after a removal.
    pub gid: u32,
}

impl SessionView {
    /// The session belongs to a supported partition node, and calls the
    /// device by the final segment of the node's path.
    pub open spec fn wf(self) -> bool {
        device_name(self.source) == Some(self.device)
    }

    /// The directory at which the device is mounted.
    pub open spec fn mount_point(self) -> Seq<char> {
        mount_point_of(self.workdir, self.device)
    }

    /// The operation that is due, with its arguments; none once the session
    /// has finished. Ownership goes to the device node, so that the
    /// configured user can reach the device itself; everything else concerns
    /// the mount point.
    pub open spec fn action(self) -> Option<ActionView> {
        match self.stage {
            Stage::Announce => Some(
                ActionView::Notify(notice("mounting device: "@ + self.device)),
            ),
            Stage::CreateDir => Some(ActionView::CreateDir { path: self.mount_point() }),
            Stage::SetMode => Some(
                ActionView::SetMode { path: self.mount_point(), mode: MOUNT_POINT_MODE },
            ),
            Stage::SetOwner => Some(ActionView::SetOwner { path: self.source, uid: self.uid }),
            Stage::OwnerCleanup => Some(ActionView::RemoveDir { path: self.mount_point() }),
            Stage::SetGroup => Some(ActionView::SetGroup { path: self.source, gid: self.gid }),
            Stage::GroupCleanup => Some(ActionView::RemoveDir { path: self.mount_point() }),
            Stage::QueryFilesystems => Some(ActionView::QueryFilesystems),
            Stage::Mount => Some(
                ActionView::Mount {
                    source: self.source,
                    target: self.mount_point(),
                    no_device_files: true,
                    no_set_uid: true,
                },
            ),
            Stage::AnnounceRemoval => Some(
                ActionView::Notify(notice("removed device: "@ + self.device)),
            ),
            Stage::Unmount => Some(
                ActionView::Unmount { target: self.mount_point(), force: true },
            ),
            Stage::RemoveDir => Some(ActionView::RemoveDir { path: self.mount_point() }),
            Stage::Done => None,
            Stage::Failed(_) => None,
        }
    }

    /// The session after its operation has succeeded or failed. Only the
    /// stage changes.
    pub open spec fn advance(self, succeeded: bool) -> SessionView {
        SessionView { stage: self.stage.next(succeeded), ..self }
    }

    /// How the session ended; none while an operation is due.
    pub open spec fn outcome(self) -> Option<Result<(), EventError>> {
        match self.stage {
            Stage::Done => Some(Ok(())),
            Stage::Failed(e) => Some(Err(e)),
            _ => None,
        }
    }
}

/// The handling of one device event.
#[derive(Debug)]
pub struct Session {
    stage: Stage,
    source: String,
    device: String,
    workdir: String,
    mount_point: String,
    uid: u32,
    gid: u32,
}

impl View for Session {
    type V = SessionView;

    closed spec fn view(&self) -> SessionView {
        SessionView {
            stage: self.stage,
            source: self.source@,
            device: self.device@,
            workdir: self.workdir@,
            uid: self.uid,
            gid: self.gid,
        }
    }
}

impl Session {
    #[verifier::type_invariant]
    spec fn inv(self) -> bool {
        &&& self@.wf()
        &&& self.mount_point@ == self@.mount_point()
    }

    /// Starts a session at `stage` for the device node `source`, whose device
    /// is called `device`.
    pub(crate) fn start(
        stage: Stage,
        source: &str,
        device: String,
        workdir: &str,
        uid: u32,
        gid: u32,
    ) -> (session: Session)
        requires
            device_name(source@) == Some(device@),
        ensures
            session@ == (SessionView {
                stage,
                source: source@,
                device: device@,
                workdir: workdir@,
                uid,
                gid,
            }),
    {
        let mut mount_point = workdir.to_owned();
        mount_point.append("/");
        mount_point.append(device.as_str());
        proof {
            reveal_strlit("/");
            assert("/"@ =~= seq!['/']);
        }
        Session {
            stage,
            source: source.to_owned(),
            device,
            workdir: workdir.to_owned(),
            mount_point,
            uid,
            gid,
        }
    }

    /// Where the session stands.
    pub fn stage(&self) -> (stage: Stage)
        ensures
            stage == self@.stage,
    {
        self.stage
    }

    /// Whether the session has ended.
    pub fn is_finished(&self) -> (finished: bool)
        ensures
            finished == self@.stage.is_finished(),
    {
        match self.stage {
            Stage::Done => true,
            Stage::Failed(_) => true,
            _ => false,
        }
    }

    /// How the session ended; `None` while an operation is due.
    pub fn outcome(&self) -> (outcome: Option<Result<(), EventError>>)
        ensures
            outcome == self@.outcome(),
    {
        match self.stage {
            Stage::Done => Some(Ok(())),
            Stage::Failed(e) => Some(Err(e)),
            _ => None,
        }
    }

    /// Path of the device node.
    pub fn source(&self) -> (source: &str)
        ensures
            source@ == self@.source,
    {
        self.source.as_str()
    }

    /// Name of the device: the final segment of the node's path, never empty.
    pub fn device(&self) -> (device: &str)
        ensures
            device@ == self@.device,
            self@.wf(),
    {
        proof {
            use_type_invariant(self);
        }
        self.device.as_str()
    }

    /// The directory at which the device is mounted: the working directory,
    /// a `/`, and the device name.
    pub fn mount_point(&self) -> (path: &str)
        ensures
            path@ == self@.workdir + seq!['/'] + self@.device,
    {
        proof {
            use_type_invariant(self);
        }
        self.mount_point.as_str()
    }

    /// The operation that is due; `None` once the session has ended.
    pub fn action(&self) -> (action: Option<Action>)
        ensures
            match action {
                Some(a) => self@.action() == Some(a@),
                None => self@.action() is None,
            },
    {
        proof {
            use_type_invariant(self);
        }
        match self.stage {
            Stage::Announce => {
                let mut text = "mounting device: ".to_owned();
                text.append(self.device.as_str());
                Some(Action::Notify(notify(text.as_str())))
            },
            Stage::CreateDir => Some(Action::CreateDir { path: self.mount_point.clone() }),
            Stage::SetMode => Some(
                Action::SetMode { path: self.mount_point.clone(), mode: MOUNT_POINT_MODE },
            ),
            Stage::SetOwner => Some(
                Action::SetOwner { path: self.source.clone(), uid: self.uid },
            ),
            Stage::OwnerCleanup => Some(Action::RemoveDir { path: self.mount_point.clone() }),
            Stage::SetGroup => Some(
                Action::SetGroup { path: self.source.clone(), gid: self.gid },
            ),
            Stage::GroupCleanup => Some(Action::RemoveDir { path: self.mount_point.clone() }),
            Stage::QueryFilesystems => Some(Action::QueryFilesystems),
            Stage::Mount => Some(
                Action::Mount {
                    source: self.source.clone(),
                    target: self.mount_point.clone(),
                    no_device_files: true,
                    no_set_uid: true,
                },
            ),
            Stage::AnnounceRemoval => {
                let mut text = "removed device: ".to_owned();
                text.append(self.device.as_str());
                Some(Action::Notify(notify(text.as_str())))
            },
            Stage::Unmount => Some(
                Action::Unmount { target: self.mount_point.clone(), force: true },
            ),
            Stage::RemoveDir => Some(Action::RemoveDir { path: self.mount_point.clone() }),
            Stage::Done => None,
            Stage::Failed(_) => None,
        }
    }

    /// Moves on, given whether the operation that was due succeeded. A
    /// session that has ended stays as it is.
    pub fn advance(self, succeeded: bool) -> (next: Session)
        ensures
            next@ == self@.advance(succeeded),
            next@.stage.operations_left() < self@.stage.operations_left()
                || self@.stage.is_finished(),
    {
        proof {
            use_type_invariant(&self);
        }
        Session {
            stage: self.stage.follow(succeeded),
            source: self.source,
            device: self.device,
            workdir: self.workdir,
            mount_point: self.mount_point,
            uid: self.uid,
            gid: self.gid,
        }
    }
}

} // verus!
