//! Dove: a desktop chat client for a real-time messaging backend.
//!
//! The library holds the client's logic, each part with its contract:
//! - [`session`]: the connection-lifecycle manager, as a state machine from
//!   requests and backend answers to actions;
//! - [`events`]: the events that travel between interface and manager;
//! - [`crypto`]: the machine key, derived from stable host properties, and
//!   [`crypto::aes256`], the authenticated encryption of the stored token;
//! - [`config`]: where the token is stored and how it is sealed and read back;
//! - [`guard`]: the filter that keeps token-shaped text from being sent;
//! - [`chat`]: the chat window's state, its commands and what it does with events.
use vstd::prelude::*;

pub mod chat;
pub mod config;
pub mod crypto;
pub mod events;
pub mod guard;
pub mod session;

verus! {

} // verus!
