//! Notices for the person at the desk. They are a side channel: whether one
//! can be shown never changes what the daemon does.

pub mod desktop;
