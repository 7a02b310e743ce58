//! Virtual terminal management for Linux consoles, written without any I/O of
//! its own.
//!
//! The crate decides *what* has to be asked of the kernel and in which order;
//! the caller performs each [`Request`] and hands the [`Reply`] back. Every
//! decision is stated in a contract and proved.

pub mod allocator;
pub mod attributes;
pub mod console;
pub mod gateway;
pub mod handle;
pub mod number;
pub mod text;

pub use allocator::{Allocated, Progress, Search, Verdict, VtAllocator};
pub use attributes::{TerminalAttributes, VtSignals};
pub use console::{Console, ConsoleStage};
pub use gateway::{Outcome, Reply, Request, Step, VtFlushType, VtStat};
pub use handle::{Goal, HandleState, Ownership, Stage, Vt};
pub use number::{AsVtNumber, VtError, VtNumber};
pub use text::{
    blank_timer_sequence, clear_sequence, console_path, device_path, parse_blank_timer, path_for,
    written_for,
};
