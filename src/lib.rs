//! Core of a terminal chat client: commands and their dispatch, the work
//! queue of the background loop, the streamed-answer transcript, and the
//! keyboard interpreter that drives them.

pub mod command;
pub mod ui_event;
pub mod dispatcher;
pub mod message_loop;
pub mod chat;
pub mod panel;
pub mod app_state;
pub mod input_box;
pub mod keys;
pub mod layout;
