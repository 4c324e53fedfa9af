//! The lifecycle every panel driver offers, whatever the model: init, wake,
//! sleep, update, display and clear, stated over the signals each operation
//! queues.
use vstd::prelude::*;

use crate::interface::{busy_level, events, BusEvent, PanelState, Signal};
use crate::{Error, RefreshLut};

verus! {

/// A panel driver. Each operation queues the model's exact signal sequence
/// (see [`Signal`]); the host performs them after `take_signals`.
pub trait WaveshareDisplay: Sized {
    /// The colors the panel can show.
    type DisplayColor;

    /// The signals queued and not yet taken, and the background color.
    spec fn state(&self) -> PanelState<Self::DisplayColor>;

    /// Background color of a new driver.
    spec fn default_color() -> Self::DisplayColor;

    /// Reset and register setup.
    spec fn init_spec() -> Seq<BusEvent>;

    /// Entry into deep sleep.
    spec fn sleep_spec() -> Seq<BusEvent>;

    /// Transfer of a whole frame.
    spec fn update_spec(buffer: Seq<u8>) -> Seq<BusEvent>;

    /// Refresh of the panel from its memory.
    spec fn display_spec() -> Seq<BusEvent>;

    /// A whole frame of one color, then its refresh.
    spec fn clear_spec(color: Self::DisplayColor) -> Seq<BusEvent>;

    /// Whether a low busy line means busy.
    spec fn spec_busy_is_low() -> bool;

    spec fn spec_width() -> u32;

    spec fn spec_height() -> u32;

    /// Whether the model refreshes part of the panel.
    spec fn supports_partial() -> bool;

    /// Whether the model takes custom waveform tables.
    spec fn supports_lut() -> bool;

    /// A driver with the default background color and the init sequence
    /// queued.
    fn new() -> (r: Self)
        ensures
            r.state() == (PanelState { pending: Self::init_spec(), color: Self::default_color() }),
    ;

    /// Runs the init sequence again, after deep sleep or to resynchronise.
    fn wake_up(&mut self)
        ensures
            final(self).state() == old(self).state().send(Self::init_spec()),
    ;

    /// Puts the panel into deep sleep; only `wake_up` brings it back.
    fn sleep(&mut self)
        ensures
            final(self).state() == old(self).state().send(Self::sleep_spec()),
    ;

    /// Streams a whole frame to the panel's memory. The buffer is
    /// width times height over the pixels per byte long; that is the
    /// caller's to ensure.
    fn update_frame(&mut self, buffer: &[u8])
        ensures
            final(self).state() == old(self).state().send(Self::update_spec(buffer@)),
    ;

    /// Streams part of a frame; refused, with nothing queued, by a model
    /// without partial refresh.
    fn update_partial_frame<S, P, D>(
        &mut self,
        buffer: &[u8],
        x: u32,
        y: u32,
        width: u32,
        height: u32,
    ) -> (r: Result<(), Error<S, P, D>>)
        ensures
            !Self::supports_partial() ==> (r matches Err(Error::NotImplemented)
                && final(self).state() == old(self).state()),
    ;

    /// Shows the frame in the panel's memory.
    fn display_frame(&mut self)
        ensures
            final(self).state() == old(self).state().send(Self::display_spec()),
    ;

    /// `update_frame`, then `display_frame`.
    fn update_and_display_frame(&mut self, buffer: &[u8])
        ensures
            final(self).state() == old(self).state().send(
                Self::update_spec(buffer@) + Self::display_spec(),
            ),
    ;

    /// Fills the whole frame with the background color and displays it.
    fn clear_frame(&mut self)
        ensures
            final(self).state() == old(self).state().send(Self::clear_spec(old(self).state().color)),
    ;

    /// Sets the color `clear_frame` fills with.
    fn set_background_color(&mut self, color: Self::DisplayColor)
        ensures
            final(self).state() == old(self).state().with_color(color),
    ;

    /// The color `clear_frame` fills with.
    fn background_color(&self) -> (r: &Self::DisplayColor)
        ensures
            *r == self.state().color,
    ;

    /// Width of the display, in pixels.
    fn width(&self) -> (r: u32)
        ensures
            r == Self::spec_width(),
    ;

    /// Height of the display, in pixels.
    fn height(&self) -> (r: u32)
        ensures
            r == Self::spec_height(),
    ;

    /// Loads a custom waveform table; refused, with nothing queued, by a
    /// model without them.
    fn set_lut<S, P, D>(&mut self, refresh_rate: Option<RefreshLut>) -> (r: Result<(), Error<S, P, D>>)
        ensures
            !Self::supports_lut() ==> (r matches Err(Error::NotImplemented)
                && final(self).state() == old(self).state()),
    ;

    /// Whether the panel is busy, given one sample of the busy line.
    fn is_busy(&self, line_is_low: bool) -> (r: bool)
        ensures
            r == busy_level(line_is_low, Self::spec_busy_is_low()),
    ;

    /// Hands over the queued signals, oldest first, for the host to perform.
    fn take_signals(&mut self) -> (r: Vec<Signal>)
        ensures
            events(r@) == old(self).state().pending,
            final(self).state() == old(self).state().drained(),
    ;
}

/// Sleeping and waking a second time leaves any driver as the first cycle
/// did: the background color is kept, and the second cycle queues exactly
/// what the first one queued.
pub proof fn lemma_sleep_wake_repeat<T: WaveshareDisplay>(s: PanelState<T::DisplayColor>)
    ensures
        ({
            let once = s.send(T::sleep_spec()).send(T::init_spec());
            let twice = once.send(T::sleep_spec()).send(T::init_spec());
            &&& once.color == s.color
            &&& twice.color == once.color
            &&& twice.pending.subrange(once.pending.len() as int, twice.pending.len() as int)
                == once.pending.subrange(s.pending.len() as int, once.pending.len() as int)
        }),
{
    let once = s.send(T::sleep_spec()).send(T::init_spec());
    let twice = once.send(T::sleep_spec()).send(T::init_spec());
    assert(twice.pending.subrange(once.pending.len() as int, twice.pending.len() as int)
        =~= T::sleep_spec() + T::init_spec());
    assert(once.pending.subrange(s.pending.len() as int, once.pending.len() as int)
        =~= T::sleep_spec() + T::init_spec());
}

/// Right after `new`, a driver reads the busy line through its model's
/// polarity: busy exactly when the line sits at the level the model calls
/// busy.
pub proof fn lemma_new_is_busy<T: WaveshareDisplay>(line_is_low: bool)
    ensures
        busy_level(line_is_low, T::spec_busy_is_low()) == (line_is_low == T::spec_busy_is_low()),
{
}

} // verus!
