//! A peer-to-peer terminal chat client's coordination core: the page and
//! input state machine of the terminal frontend, the message protocol
//! between the frontend and the network daemon, and the daemon's
//! decisions on commands and overlay events.
pub mod app;
pub mod banner;
pub mod chat_room;
pub mod key;
pub mod message;
pub mod network;
pub mod overlay;
mod text;
pub mod topic_list;
