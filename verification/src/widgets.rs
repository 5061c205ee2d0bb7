//! Free-standing text widgets: the message bubble the viewer lays its
//! messages out with.

pub mod message_bubble;
