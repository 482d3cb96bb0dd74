//! Host boundary for a simulated three-digit-word computer.
//!
//! The crate drives a three-stage pipeline (parse, assemble, initialise) that
//! turns assembly text into a fixed 100-word program image, and then steps a
//! small virtual machine one instruction at a time, exchanging one word of
//! input or output per call.  Text crosses the boundary through a shared byte
//! arena: the host writes source bytes at the start of the arena and declares
//! their length, and a failing pipeline stage writes its diagnostic message
//! immediately after the declared source bytes.

mod capability;
pub mod session;
pub mod string_writer;

pub use session::Session;
pub use session::State;
pub use string_writer::StringWriter;
