//! Verified core of the Autonomi bindings.
//!
//! Two things live here. The first is the polling bridge: a slot table of
//! fixed size through which an asynchronous operation, advanced on threads
//! that the consumer does not control, tells a single polling thread how far
//! it has come. `slots` holds the table as its owner sees it, `bridge` the
//! same operations in the shape a native engine calls them, `protocol` what
//! holds over whole sequences of calls, and `shared` the table over atomic
//! cells.
//!
//! The second is the data that crosses the binding boundary: addresses,
//! chunks, archives, keys, pointers, scratchpads, graph entries, registers
//! and the records and errors of the client, each as a plain value with the
//! rules that govern it.

pub mod archive;
pub mod bridge;
pub mod buffer;
pub mod client;
pub mod data;
pub mod filetable;
pub mod fixed;
pub mod graph_entry;
pub mod hexcode;
pub mod key_derivation;
pub mod keys;
pub mod peers;
pub mod pointer;
pub mod protocol;
pub mod registers;
pub mod scratchpad;
pub mod shared;
pub mod slots;
pub mod streaming;
pub mod text;
pub mod vault;
pub mod xorname;
