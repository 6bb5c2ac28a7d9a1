//! Whole runs of a session, and what holds of every run.
//!
//! A run is what happens when the caller performs each operation that the
//! session asks for and reports the result. No stage is passed twice, so the
//! world a run meets is described by one answer per stage: does the
//! operation of that stage succeed?
//!
//! The session that follows the appearance of a device starts at
//! `Stage::Announce`, the one that follows a removal at
//! `Stage::AnnounceRemoval`.

use crate::action::{ActionView, MOUNT_POINT_MODE};
use crate::notifications::desktop::notice;
use crate::session::{EventError, SessionView, Stage};
use vstd::prelude::*;

verus! {

/// The operations of the run that starts at `s`, in the order in which they
/// are asked for.
pub open spec fn trace(s: SessionView, succeeds: spec_fn(Stage) -> bool) -> Seq<ActionView>
    decreases s.stage.operations_left(),
{
    match s.action() {
        Some(action) => seq![action] + trace(s.advance(succeeds(s.stage)), succeeds),
        None => Seq::empty(),
    }
}

/// The session at the end of the run that starts at `s`.
pub open spec fn end_of(s: SessionView, succeeds: spec_fn(Stage) -> bool) -> SessionView
    decreases s.stage.operations_left(),
{
    if s.stage.is_finished() {
        s
    } else {
        end_of(s.advance(succeeds(s.stage)), succeeds)
    }
}

/// How often `action` is asked for in `t`.
pub open spec fn count(t: Seq<ActionView>, action: ActionView) -> nat
    decreases t.len(),
{
    if t.len() == 0 {
        0
    } else {
        count(t.drop_first(), action) + if t[0] == action {
            1nat
        } else {
            0nat
        }
    }
}

/// Every run ends, after no more operations than the stage it starts at
/// allows.
pub proof fn law_every_run_ends(s: SessionView, succeeds: spec_fn(Stage) -> bool)
    ensures
        end_of(s, succeeds).stage.is_finished(),
        trace(s, succeeds).len() <= s.stage.operations_left(),
    decreases s.stage.operations_left(),
{
    if !s.stage.is_finished() {
        law_every_run_ends(s.advance(succeeds(s.stage)), succeeds);
    }
}

/// After the removal of a device, the mount point is always unmounted by
/// force and then always removed, whatever the unmount returned and whether
/// or not the directory exists. The event fails if and only if the removal
/// of the directory fails.
pub proof fn law_removal_unmounts_then_deletes(s: SessionView, succeeds: spec_fn(Stage) -> bool)
    requires
        s.stage == Stage::AnnounceRemoval,
    ensures
        trace(s, succeeds) == seq![
            ActionView::Notify(notice("removed device: "@ + s.device)),
            ActionView::Unmount { target: s.mount_point(), force: true },
            ActionView::RemoveDir { path: s.mount_point() },
        ],
        end_of(s, succeeds).outcome() == Some(
            if succeeds(Stage::RemoveDir) {
                Ok::<(), EventError>(())
            } else {
                Err::<(), EventError>(EventError::RemoveDirFailed)
            },
        ),
{
    reveal_with_fuel(trace, 4);
    reveal_with_fuel(end_of, 4);
}

/// The removal of the mount point that follows a failed change of
/// ownership; nothing where the change succeeded.
pub open spec fn cleanup(s: SessionView, succeeded: bool) -> Seq<ActionView> {
    if succeeded {
        Seq::empty()
    } else {
        seq![ActionView::RemoveDir { path: s.mount_point() }]
    }
}

/// The operations of a whole run after the appearance of a device, for every
/// way the world may answer. A notice comes first. The run stops at once if
/// the mount point cannot be created or its mode cannot be set, and later if
/// the supported filesystems cannot be found out. A failure to set the owner
/// or the group is followed by a removal of the mount point, and the run
/// goes on all the same.
pub proof fn law_created_trace(s: SessionView, succeeds: spec_fn(Stage) -> bool)
    requires
        s.stage == Stage::Announce,
    ensures
        trace(s, succeeds) == if !succeeds(Stage::CreateDir) {
            seq![
                ActionView::Notify(notice("mounting device: "@ + s.device)),
                ActionView::CreateDir { path: s.mount_point() },
            ]
        } else if !succeeds(Stage::SetMode) {
            seq![
                ActionView::Notify(notice("mounting device: "@ + s.device)),
                ActionView::CreateDir { path: s.mount_point() },
                ActionView::SetMode { path: s.mount_point(), mode: MOUNT_POINT_MODE },
            ]
        } else {
            seq![
                ActionView::Notify(notice("mounting device: "@ + s.device)),
                ActionView::CreateDir { path: s.mount_point() },
                ActionView::SetMode { path: s.mount_point(), mode: MOUNT_POINT_MODE },
                ActionView::SetOwner { path: s.source, uid: s.uid },
            ] + cleanup(s, succeeds(Stage::SetOwner)) + seq![
                ActionView::SetGroup { path: s.source, gid: s.gid },
            ] + cleanup(s, succeeds(Stage::SetGroup)) + seq![ActionView::QueryFilesystems] + if succeeds(
                Stage::QueryFilesystems,
            ) {
                seq![
                    ActionView::Mount {
                        source: s.source,
                        target: s.mount_point(),
                        no_device_files: true,
                        no_set_uid: true,
                    },
                ]
            } else {
                Seq::empty()
            }
        },
        end_of(s, succeeds).outcome() == Some(
            if !succeeds(Stage::CreateDir) {
                Err::<(), EventError>(EventError::CreateDirFailed)
            } else if !succeeds(Stage::SetMode) {
                Err::<(), EventError>(EventError::SetModeFailed)
            } else if !succeeds(Stage::QueryFilesystems) {
                Err::<(), EventError>(EventError::FilesystemQueryFailed)
            } else {
                Ok::<(), EventError>(())
            },
        ),
{
    reveal_with_fuel(trace, 12);
    reveal_with_fuel(end_of, 12);
}

/// In every successful run after the appearance of a device, the mount point
/// is created before its mode is set, the mode is set before the device node
/// changes its owner and then its group, and all of that happens before the
/// mount.
pub proof fn law_created_order(s: SessionView, succeeds: spec_fn(Stage) -> bool)
    requires
        s.stage == Stage::Announce,
        end_of(s, succeeds).stage == Stage::Done,
    ensures
        ({
            let t = trace(s, succeeds);
            exists|c: int, m: int, o: int, g: int, k: int|
                #![trigger t[c], t[m], t[o], t[g], t[k]]
                0 <= c < m < o < g < k < t.len() && t[c] == (ActionView::CreateDir {
                    path: s.mount_point(),
                }) && t[m] == (ActionView::SetMode { path: s.mount_point(), mode: MOUNT_POINT_MODE })
                    && t[o] == (ActionView::SetOwner { path: s.source, uid: s.uid }) && t[g] == (
                ActionView::SetGroup { path: s.source, gid: s.gid }) && t[k] == (ActionView::Mount {
                    source: s.source,
                    target: s.mount_point(),
                    no_device_files: true,
                    no_set_uid: true,
                })
        }),
{
    law_created_trace(s, succeeds);
    let t = trace(s, succeeds);
    let g: int = if succeeds(Stage::SetOwner) {
        4
    } else {
        5
    };
    let k: int = if succeeds(Stage::SetGroup) {
        g + 2
    } else {
        g + 3
    };
    assert(0 <= 1 < 2 < 3 < g < k < t.len() && t[1] == (ActionView::CreateDir {
        path: s.mount_point(),
    }) && t[2] == (ActionView::SetMode { path: s.mount_point(), mode: MOUNT_POINT_MODE }) && t[3]
        == (ActionView::SetOwner { path: s.source, uid: s.uid }) && t[g] == (ActionView::SetGroup {
        path: s.source,
        gid: s.gid,
    }) && t[k] == (ActionView::Mount {
        source: s.source,
        target: s.mount_point(),
        no_device_files: true,
        no_set_uid: true,
    }));
}

/// After the appearance of a device, the mount point is removed once for
/// each change of ownership that is attempted and fails, and never
/// otherwise. A failure to set the owner and a failure to set the group each
/// count for themselves.
pub proof fn law_cleanup_once_per_failure(s: SessionView, succeeds: spec_fn(Stage) -> bool)
    requires
        s.stage == Stage::Announce,
    ensures
        ({
            let t = trace(s, succeeds);
            let owner_failed = t.contains(ActionView::SetOwner { path: s.source, uid: s.uid })
                && !succeeds(Stage::SetOwner);
            let group_failed = t.contains(ActionView::SetGroup { path: s.source, gid: s.gid })
                && !succeeds(Stage::SetGroup);
            count(t, ActionView::RemoveDir { path: s.mount_point() }) == (if owner_failed {
                1nat
            } else {
                0nat
            }) + (if group_failed {
                1nat
            } else {
                0nat
            })
        }),
{
    law_created_trace(s, succeeds);
    reveal_with_fuel(count, 12);
    let t = trace(s, succeeds);
    if succeeds(Stage::CreateDir) && succeeds(Stage::SetMode) {
        let g: int = if succeeds(Stage::SetOwner) {
            4
        } else {
            5
        };
        assert(t[3] == ActionView::SetOwner { path: s.source, uid: s.uid });
        assert(t[g] == ActionView::SetGroup { path: s.source, gid: s.gid });
    }
}

/// After the appearance of a device, ownership goes to the device node and
/// to nothing else: every change of owner in a run names the node and the
/// configured user, every change of group names the node and the configured
/// group. Once the mount point is created and has its mode, both changes
/// are asked for, the owner first.
pub proof fn law_ownership_goes_to_the_device_node(
    s: SessionView,
    succeeds: spec_fn(Stage) -> bool,
)
    requires
        s.stage == Stage::Announce,
    ensures
        ({
            let t = trace(s, succeeds);
            let owner = ActionView::SetOwner { path: s.source, uid: s.uid };
            let group = ActionView::SetGroup { path: s.source, gid: s.gid };
            &&& forall|i: int| 0 <= i < t.len() && (#[trigger] t[i]) is SetOwner ==> t[i] == owner
            &&& forall|i: int| 0 <= i < t.len() && (#[trigger] t[i]) is SetGroup ==> t[i] == group
            &&& succeeds(Stage::CreateDir) && succeeds(Stage::SetMode) ==> exists|o: int, g: int|
                #![trigger t[o], t[g]]
                0 <= o < g < t.len() && t[o] == owner && t[g] == group
        }),
{
    law_created_trace(s, succeeds);
    let t = trace(s, succeeds);
    if succeeds(Stage::CreateDir) && succeeds(Stage::SetMode) {
        let g: int = if succeeds(Stage::SetOwner) {
            4
        } else {
            5
        };
        assert(0 <= 3 < g < t.len() && t[3] == (ActionView::SetOwner {
            path: s.source,
            uid: s.uid,
        }) && t[g] == (ActionView::SetGroup { path: s.source, gid: s.gid }));
    }
}

} // verus!
