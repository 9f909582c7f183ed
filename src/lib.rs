//! Pre-compression of static web assets into Brotli sidecar files.
//!
//! The library holds the decisions of the pipeline: which directory entries
//! are candidates, how an existing sidecar is classified, what a task writes
//! and what it reports. Reading and writing files, and running the tasks on a
//! worker pool, are left to the caller.

pub mod codec;
pub mod digest;
pub mod filter;
pub mod op;
pub mod pipeline;
pub mod schedule;
pub mod walk;

pub use codec::{decode, encode, CodecError, QUALITY};
pub use digest::{hash, hash_key};
pub use filter::ExtensionFilter;
pub use op::Operation;
pub use pipeline::{classify, compare, process, sidecar_name, Outcome, TaskError};
pub use schedule::first_failure;
pub use walk::{entry_action, is_hidden_name, Candidate, EntryAction, Walk};
