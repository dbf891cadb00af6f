//! Terminal chat front-end core: an auto-wrapping input area, a selectable
//! message list, timed popups and the frame they compose.

pub mod address;
pub mod area;
pub mod chat_app;
pub mod command;
pub mod error;
pub mod frame;
pub mod list;
pub mod message;
pub mod popup;
pub mod store;
pub mod style;
pub mod text;
pub mod textarea;
pub mod timer;
pub mod typing;
