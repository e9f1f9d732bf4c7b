//! The logic of a gateway that takes uploaded files into a content-addressed
//! store and answers with a ticket by which any peer can fetch them.
//!
//! Everything here works on plain values; sockets, files and the store itself
//! are driven by the program around this library.
//!
//! - `identity`: the node's secret key, its key file and its public identity.
//! - `lifecycle`: the order of startup and shutdown, as a state machine.
//! - `upload`: what an upload does next, and the answer it is owed.
//! - `node_id`: the answer to a request for the node's identity.
//! - `ticket`: tickets as plain values and as text.
//! - `content`: content hashes, formats and descriptors.
//! - `text`, `bytes`: hexadecimal text and byte comparison.

pub mod bytes;
pub mod content;
pub mod identity;
pub mod lifecycle;
pub mod node_id;
pub mod text;
pub mod ticket;
pub mod upload;
