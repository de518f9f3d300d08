//! The decisions of a fault-proof host that answers hints for a single chain.
//!
//! A hint names data that a program will ask the preimage oracle for. The handler turns a hint
//! into a [`step::Step`]: a request to a node, a list of entries for the preimage store, or
//! nothing. The caller performs the step, and hands replies back, until the hint is done.
//! Nothing here does I/O.
//!
//! - [`handler`]: the first step of a hint, and the step that follows a reply.
//! - [`hint`], [`reply`]: the same, one hint type and one kind of reply at a time.
//! - [`step`], [`preimage`], [`error`]: requests, replies, store entries and errors.
//! - [`blob`], [`output_root`]: how blobs and output roots are stored.
//! - [`laws`]: what holds of the store and of whole runs.
//! - [`runs`]: what holds of each hint, from its data to the bytes in the store.
//! - [`sync`]: where an oracle-backed derivation pipeline starts.
//! - [`batcher`]: which L2 blocks the batches of a range of L1 blocks cover.
//! - [`outside`]: the calls into other crates.

pub mod batcher;
pub mod blob;
pub mod bytes;
pub mod decimal;
pub mod error;
pub mod handler;
pub mod hint;
pub mod laws;
pub mod outside;
pub mod output_root;
pub mod preimage;
pub mod reply;
pub mod runs;
pub mod step;
pub mod sync;
