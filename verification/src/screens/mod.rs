//! What the screens show, worked out from the client's state; drawing it on
//! the terminal is left to the caller.
pub mod chat_messages;
pub mod post_view;
pub mod chat_channels;
pub mod notifications;
pub mod forum_picker;
pub mod main_screen;
pub mod topic_view;
