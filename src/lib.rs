//! The engine of a server for a line-oriented file-transfer control protocol.
//!
//! A client sends commands as a four-byte token and the rest of a line; the server answers
//! each with one or more replies made of a three-digit code and text. [`session::Session`]
//! holds the state of one control connection and decides what each command does; the
//! file system and the network stay outside, reached through [`session::Effect`]s.
use vstd::prelude::*;

pub mod command;
pub mod data;
pub mod lemmas;
pub mod mock;
pub mod port;
pub mod response;
pub mod session;
pub mod text;
pub mod users;
pub mod wire;

pub use crate::command::{parse_command, Command};
pub use crate::response::{decode_reply, Code, Message, ReceivedReply};
pub use crate::session::{greeting, Action, Effect, Outcome, Session, Step};
pub use crate::users::{Config, Users};

verus! {

} // verus!
