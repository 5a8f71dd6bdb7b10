//! Non-blocking I/O building blocks.
//!
//! A non-blocking operation either completes with a value, reports that it
//! would block and should be retried later, or fails with a terminal error.
//! On top of that convention this crate offers `Read` and `Write` capability
//! traits, two single-use state machines that drive such a capability until a
//! whole buffer has been filled or consumed, and an adapter that presents a
//! capability to a cooperative polling scheduler under a unified error type.

mod as_async;
mod op_result;
pub mod read_exact;
pub mod scripted;
pub mod write_all;
mod read;
mod write;

pub use as_async::AsAsync;
pub use as_async::AsAsyncReadExt;
pub use as_async::AsAsyncWriteExt;
pub use as_async::IoError;
pub use op_result::OpResult;
pub use read::Read;
pub use read_exact::read_exact;
pub use write::Write;
pub use write_all::write_all;
