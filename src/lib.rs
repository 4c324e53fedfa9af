//! Drivers for Waveshare electronic-paper panels.
//!
//! The library holds the protocol: each lifecycle operation of a panel
//! (init, update, display, clear, sleep, wake) is turned into the exact
//! sequence of control-line, bus and delay actions the panel expects.
//! Those actions queue up as [`interface::Signal`] values; the host drains
//! them and performs them on its own pins, bus and timer, sampling the busy
//! line where a [`interface::Signal::WaitIdle`] asks for it.
use vstd::prelude::*;

pub mod color;
pub mod interface;
pub mod epd5in65f;
pub mod epd7in5_v2;
pub mod traits;

verus! {

/// Faults a host can meet while it performs the queued actions, and the
/// refusal of an operation that a panel model does not offer.
#[derive(Debug, PartialEq, Eq)]
pub enum Error<S, P, D> {
    /// The serial bus write failed.
    SPIError(S),
    /// Reading or setting a control line failed.
    PinError(P),
    /// The delay provider failed.
    DelayError(D),
    /// The operation is not implemented for this panel model.
    NotImplemented,
}

/// Refresh waveform tables a panel may be given.
#[derive(Clone, Copy, Debug, PartialEq, Eq, Structural)]
pub enum RefreshLut {
    /// The full refresh waveform.
    Full,
    /// The quick (partial) refresh waveform.
    Quick,
}

} // verus!
