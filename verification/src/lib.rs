//! The decisions of an allocator adapter.
//!
//! The adapter answers the requests of a general-purpose allocator
//! (allocate, allocate zeroed, resize, free) with the primitives of an
//! allocation engine. For each request it decides which primitive serves it,
//! and what is left to do once the primitive has answered: zero what plain
//! allocation would have zeroed, or move an allocation that the engine cannot
//! resize in place.
//!
//! The library touches no memory. An [`Operation`] tells its host one
//! [`Step`] at a time what to do, and takes back what the step returned; the
//! host invokes the engine and writes to memory. The adapter itself keeps
//! nothing between two requests.
//!
//! - [`classify`]: the rule that picks between plain and aligned allocation.
//! - [`layout`]: size and alignment of a request.
//! - [`primitive`]: the seven primitives of the engine.
//! - [`operation`]: the steps of a request.
//! - [`adapter`]: the requests.
//! - [`alignment`]: powers of two, and the alignment that plain allocation
//!   guarantees.
//! - [`engine`]: what the engine promises, as a model of its heap.
//! - [`laws`]: what follows for every run of every request.

pub mod adapter;
pub mod alignment;
pub mod classify;
pub mod engine;
pub mod laws;
pub mod layout;
pub mod operation;
pub mod primitive;

pub use adapter::{usable_size, Mesh};
pub use classify::plain_eligible;
pub use layout::Layout;
pub use operation::{Operation, Step};
pub use primitive::Primitive;
