//! I/O-free, resumable and composable stream state machines.
//!
//! Coroutines emit [`Io`](crate::Io) requests that a runtime fulfils
//! before they can make progress.

pub mod read;
pub mod read_exact;
pub mod read_to_end;
pub mod write;

pub use self::read::{Read, ReadView, DEFAULT_CAPACITY};
pub use self::read_exact::{ReadExact, ReadExactView};
pub use self::read_to_end::{ReadToEnd, ReadToEndView};
pub use self::write::{Write, WriteView};
