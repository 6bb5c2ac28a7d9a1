//! Desktop notifications.

use vstd::prelude::*;

verus! {

/// A desktop notification, ready to be shown.
#[derive(Debug, PartialEq, Eq)]
pub struct Notification {
    /// The headline.
    pub summary: String,
    /// The message itself.
    pub body: String,
    /// Name of the icon shown beside it.
    pub icon: String,
}

/// A `Notification` as plain text.
pub struct NotificationView {
    pub summary: Seq<char>,
    pub body: Seq<char>,
    pub icon: Seq<char>,
}

impl View for Notification {
    type V = NotificationView;

    open spec fn view(&self) -> NotificationView {
        NotificationView { summary: self.summary@, body: self.body@, icon: self.icon@ }
    }
}

/// The notification that carries `content` under the daemon's headline.
pub open spec fn notice(content: Seq<char>) -> NotificationView {
    NotificationView { summary: "Rudevil>>"@, body: content, icon: "dialog-info"@ }
}

/// Builds the notification that tells the user `content`. Showing it is left
/// to the caller, and is best effort.
pub fn notify(content: &str) -> (note: Notification)
    ensures
        note@ == notice(content@),
{
    Notification {
        summary: "Rudevil>>".to_owned(),
        body: content.to_owned(),
        icon: "dialog-info".to_owned(),
    }
}

} // verus!
