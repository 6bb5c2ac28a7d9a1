//! The two orchestrators: what to do when a device node appears, and what to
//! do when one disappears.
//!
//! Each hands the path of the event to the device matcher and either declines
//! the event, in which case nothing on the system is touched, or starts a
//! session that asks for the operations one by one.

use crate::device::{device_name, extract_device, names_device};
use crate::session::{EventError, Session, SessionView, Stage};
use vstd::prelude::*;

verus! {

/// The session that a device event starts at `stage`, for a path that names
/// a supported partition node.
pub open spec fn session_at(
    stage: Stage,
    path: Seq<char>,
    uid: u32,
    gid: u32,
    workdir: Seq<char>,
) -> SessionView {
    SessionView { stage, source: path, device: device_name(path)->0, workdir, uid, gid }
}

/// Handles the appearance of the device node `path`.
///
/// A path that is not the name of a supported partition node is declined as
/// a wrong device name, and no operation is asked for. For any other path
/// the device matcher gives the name of the device, and a session starts. It
/// announces the device, creates the mount point `workingdir/device` with
/// mode `rwxrwxr-x`, hands the device node to `uid` and `gid`, asks for the
/// supported filesystems and mounts the device. A failure to hand the node
/// over removes the mount point again, and yet the session goes on to the
/// mount.
pub fn process_created(path: &str, uid: u32, gid: u32, workingdir: &str) -> (r: Result<
    Session,
    EventError,
>)
    ensures
        !names_device(path@) ==> r == Err::<Session, EventError>(EventError::WrongDeviceName),
        names_device(path@) ==> r is Ok && r->Ok_0@ == session_at(
            Stage::Announce,
            path@,
            uid,
            gid,
            workingdir@,
        ),
{
    match extract_device(path) {
        None => Err(EventError::WrongDeviceName),
        Some(device) => Ok(Session::start(Stage::Announce, path, device, workingdir, uid, gid)),
    }
}

/// Handles the disappearance of the device node `path`.
///
/// A path that is not the name of a supported partition node is expected
/// noise: nothing is done and nothing is reported. For any other path a
/// session starts. It announces the removal, unmounts `workingdir/device` by
/// force and removes that directory, without asking whether the directory
/// exists or who made it. The session succeeds unless the removal fails; a
/// directory that is not there makes it fail.
pub fn process_removed(path: &str, workingdir: &str) -> (r: Option<Session>)
    ensures
        !names_device(path@) ==> r is None,
        names_device(path@) ==> r is Some && r->0@ == session_at(
            Stage::AnnounceRemoval,
            path@,
            0,
            0,
            workingdir@,
        ),
{
    match extract_device(path) {
        None => None,
        Some(device) => Some(
            Session::start(Stage::AnnounceRemoval, path, device, workingdir, 0, 0),
        ),
    }
}

} // verus!
