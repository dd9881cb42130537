//! Transport of opaque protocol messages over a DAG-based ledger.
//!
//! A message is addressed by a link (application instance plus message id);
//! the transport encodes bodies into the ledger's indexable payload format,
//! attaches them to current ledger tips, and retrieves the messages stored
//! under a link. The codec and every decision the pipeline takes are
//! verified here; the node I/O around them lives with the connection layer.

use vstd::prelude::*;

pub mod client;
pub mod codec;
pub mod encoding;
pub mod errors;
pub mod link;
pub mod message;
pub mod recv;
pub mod send;
