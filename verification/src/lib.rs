//! The core of an object store on Google Cloud Storage zonal buckets (Rapid
//! storage class), which are reached over the gRPC Storage v2 API.
//!
//! Zonal buckets hold appendable objects: objects that are opened, written to
//! incrementally, flushed, paused, resumed and finalized. This crate makes the
//! requests for that and interprets the answers; it does no input or output
//! itself. The caller obtains tokens, sends requests and receives messages, and
//! hands each outcome back as a plain value.
//!
//! A flush tells the answer to its own message from the answers to earlier
//! ones. The size in the answer to the message that opens a stream is passed
//! over: a writer counts the bytes that it sends itself, from zero, and does not
//! move to the end of what a resumed object holds already.
//!
//! * [`builder`] configures and builds the store.
//! * [`store`] writes whole objects, reads ranges and opens appends.
//! * [`append`] is the writer of an appendable object.
//! * [`client`] makes the requests and authorizes them.
//! * [`write`] and [`read`] take in the answers.
//! * [`error`], [`object`], [`payload`], [`proto`], [`text`], [`time`] and
//!   [`transport`] hold the values that these exchange.

pub mod append;
pub mod builder;
pub mod client;
pub mod error;
pub mod object;
pub mod payload;
pub mod proto;
pub mod read;
pub mod store;
pub mod text;
pub mod time;
pub mod transport;
pub mod write;

pub use append::AppendWriter;
pub use builder::GoogleCloudStorageRapidBuilder;
pub use store::{AppendableStore, GoogleCloudStorageRapid};
