//! The conversation view model: messages, scrolling, input interpretation,
//! text layout and the state machine of the chat screen.

pub mod message;
pub mod scroll;
pub mod commands;
pub mod input;
pub mod layout;
pub mod app;
