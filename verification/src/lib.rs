//! Finding LocalSend devices on the local network and fetching the files
//! they offer.
//!
//! The library holds the rules of the protocol and leaves sockets, clocks,
//! requests and files to its caller:
//!
//! - [`messages`] has the messages that devices exchange, and how each is
//!   written as JSON and read from it.
//! - [`discover`] decides what a datagram of the multicast group means for
//!   the registry of peers, and what a session of discovery does next.
//! - [`download`] decides what the reply to a handshake means, which
//!   requests fetch the files of a list, where each file is saved, and what
//!   is reported of each in the end.
//! - [`utils`] makes the name that a sender gives a file safe to save under.
//! - [`api`], [`errors`], [`args`] and [`constants`] hold the parameters of
//!   the requests, the refusals that the protocol names, what a caller asks
//!   of a session, and what the protocol fixes.
//! - [`json`] and [`text`] hold documents and text as the rest works on them.
//!
//! Every function says in its contract what it returns, over the content of
//! its arguments: a type that holds text or lists has a view, and the
//! contracts speak of views.

pub mod api;
pub mod args;
pub mod constants;
pub mod discover;
pub mod download;
pub mod errors;
pub mod json;
pub mod messages;
pub mod text;
pub mod utils;
