//! Register-level model of a single-board computer's GPIO peripheral.
//!
//! The library verifies the logic of a GPIO hardware-access layer: the
//! bit-field arithmetic on the memory-mapped control and status registers,
//! discovery of the interrupt-capable controller device, the synchronous
//! interrupt event loop with its per-pin edge cache, the asynchronous
//! worker protocol, the pull-resistor write sequence, and the
//! single-instance lifecycle of the top-level handle.
//!
//! Everything the operating system would supply (device probe outcomes,
//! kernel edge records, thread join results) reaches the library as plain
//! values, so every decision the layer makes is verified for every possible
//! outcome of the surrounding I/O.
//!
//! The handle's register page starts from the hardware's reset default
//! (every word zero) and mirrors the operations made through the handle; it
//! cannot be seeded from hardware that was configured before the handle
//! opened. An adapter that must read such pre-existing state works on the
//! live page directly, with the same verified bit-field functions the
//! model uses — `fsel_field`, `fsel_set`, `level_bit`, `pud_control` and
//! the register word offsets are exported for exactly that.

use vstd::prelude::*;

mod bus;
mod discovery;
mod events;
mod handle;
mod pin;
mod pull;
mod regs;
mod registry;
mod types;
mod worker;

pub use bus::BusProbe;
pub use bus::BusSource;
pub use discovery::CandidateProbe;
pub use discovery::MAX_CANDIDATES;
pub use discovery::find_driver;
pub use discovery::label_accepted;
pub use events::CachedEdge;
pub use events::EdgeEvent;
pub use events::EventLoop;
pub use handle::Gpio;
pub use pin::InputPin;
pub use pin::OutputPin;
pub use pin::Pin;
pub use pull::PUD_SETTLE_NANOS;
pub use pull::PullStep;
pub use pull::pull_sequence;
pub use regs::GPCLR;
pub use regs::GPFSEL;
pub use regs::GPLEV;
pub use regs::GPPUD;
pub use regs::GPPUDCLK;
pub use regs::GPSET;
pub use regs::MAX_PINS;
pub use regs::REG_WORDS;
pub use regs::Registers;
pub use regs::fsel_field;
pub use regs::fsel_set;
pub use regs::level_bit;
pub use regs::pud_control;
pub use registry::InstanceRegistry;
pub use types::EdgeKind;
pub use types::Level;
pub use types::Mode;
pub use types::PullUpDown;
pub use types::Trigger;
pub use types::level_of_edge;
pub use worker::AsyncWorker;
pub use worker::WorkerEvent;

verus! {

/// Errors reported by the GPIO peripheral layer.
#[derive(Debug, Clone, Copy, PartialEq, Eq)]
pub enum Error {
    /// The pin index lies outside the supported range.
    InvalidPin(u8),
    /// A decoded mode field held a value outside the defined value space.
    UnknownMode(u8),
    /// Controller discovery exhausted every candidate without a label match.
    UnknownSoC,
    /// Neither register-bus device path could be opened for access.
    PermissionDenied,
    /// A top-level handle already exists.
    InstanceExists,
    /// A lower-level I/O operation failed; carries the OS error code.
    Io(i32),
    /// An asynchronous interrupt worker terminated abnormally.
    ThreadPanic,
}

/// Result type for operations of the GPIO layer.
pub type Result<T> = core::result::Result<T, Error>;

/// OS error code an operation on a closed handle reports (EBADF): what a
/// register access attempted after teardown surfaces as, instead of ever
/// touching unmapped memory.
pub const CLOSED_HANDLE_ERRNO: i32 = 9;

} // verus!
