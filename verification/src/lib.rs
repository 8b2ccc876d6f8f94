//! Decision logic of a chat bot that accepts room invitations and answers
//! `!cat` and `!joke` commands.
//!
//! The crate performs no input or output. Each handler is a function from an
//! incoming event, or from the outcome of a request, to the next request its
//! host should perform.

pub mod cat;
pub mod event;
pub mod invite;
pub mod joke;
pub mod reply;
pub mod router;
pub mod text;
