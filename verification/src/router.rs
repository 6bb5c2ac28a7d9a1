//! Event router: which orchestrator gets an event.

use crate::device::names_device;
use crate::orchestrator::{process_created, process_removed, session_at};
use crate::session::{EventError, Session, SessionView, Stage};
use crate::startup::{is_rooted, MountContext, MountContextView};
use vstd::prelude::*;

verus! {

/// What the watch on the device directory reports.
#[derive(Debug, PartialEq, Eq)]
pub enum DeviceEvent {
    /// A node appeared at this path.
    Created(String),
    /// The node at this path disappeared.
    Removed(String),
    /// Anything else.
    Other,
}

/// What is to be done about an event.
#[derive(Debug)]
pub enum Dispatch {
    /// Run this session to its end and report its outcome.
    Run(Session),
    /// Report this failure; nothing was touched.
    Declined(EventError),
    /// Nothing to do, nothing to report.
    Ignored,
}

/// A `Dispatch` as plain values.
pub enum DispatchView {
    Run(SessionView),
    Declined(EventError),
    Ignored,
}

impl View for Dispatch {
    type V = DispatchView;

    open spec fn view(&self) -> DispatchView {
        match self {
            Dispatch::Run(session) => DispatchView::Run(session@),
            Dispatch::Declined(e) => DispatchView::Declined(*e),
            Dispatch::Ignored => DispatchView::Ignored,
        }
    }
}

/// What is to be done about `event`. A created node goes to the mount
/// orchestrator with the ids and the working directory of `context`, a
/// removed one to the unmount orchestrator with the working directory alone.
/// Every other event is ignored.
pub open spec fn routed(event: DeviceEvent, context: MountContextView) -> DispatchView {
    match event {
        DeviceEvent::Created(path) => if names_device(path@) {
            DispatchView::Run(
                session_at(Stage::Announce, path@, context.uid, context.gid, context.workdir),
            )
        } else {
            DispatchView::Declined(EventError::WrongDeviceName)
        },
        DeviceEvent::Removed(path) => if names_device(path@) {
            DispatchView::Run(session_at(Stage::AnnounceRemoval, path@, 0, 0, context.workdir))
        } else {
            DispatchView::Ignored
        },
        DeviceEvent::Other => DispatchView::Ignored,
    }
}

/// Routes one event. Whatever comes back, the caller goes on to the next
/// event afterwards: no event ends the daemon.
pub fn dispatch(event: &DeviceEvent, context: &MountContext) -> (r: Dispatch)
    ensures
        r@ == routed(*event, context@),
        r@ matches DispatchView::Run(session) ==> is_rooted(session.mount_point()),
{
    match event {
        DeviceEvent::Created(path) => {
            match process_created(
                path.as_str(),
                context.uid(),
                context.gid(),
                context.workdir(),
            ) {
                Ok(session) => Dispatch::Run(session),
                Err(e) => Dispatch::Declined(e),
            }
        },
        DeviceEvent::Removed(path) => {
            match process_removed(path.as_str(), context.workdir()) {
                Some(session) => Dispatch::Run(session),
                None => Dispatch::Ignored,
            }
        },
        DeviceEvent::Other => Dispatch::Ignored,
    }
}

/// An event whose path is not the name of a supported partition node touches
/// nothing: no session starts, so no operation is ever asked for. The
/// appearance of such a node is reported as a wrong device name; its
/// disappearance passes in silence.
pub proof fn law_unsupported_paths_touch_nothing(path: String, context: MountContextView)
    requires
        !names_device(path@),
    ensures
        routed(DeviceEvent::Created(path), context) == DispatchView::Declined(
            EventError::WrongDeviceName,
        ),
        routed(DeviceEvent::Removed(path), context) == DispatchView::Ignored,
{
}

} // verus!
