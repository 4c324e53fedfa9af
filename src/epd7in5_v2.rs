//! Driver for the Waveshare 7.5 inch (V2) monochrome panel: 800 by 480
//! pixels, eight pixels to a byte, the resolution sent once at init, the
//! frame sent through the second transmission buffer, and a busy wait that
//! queries the panel's status on every busy sample.
use vstd::prelude::*;

use crate::color::{Color, PixelEncoding};
use crate::interface::{
    command_data_frame, command_frame, data_frame, payload, repeat, reset_sequence,
    BusEvent, DisplayInterface, PanelState, Poll, Signal, Wait, lemma_data_frame_payload,
    lemma_seq_add_assoc,
};
use crate::traits::WaveshareDisplay;
use crate::{Error, RefreshLut};

pub mod command;
use self::command::Command;

verus! {

/// Width of the display, in pixels.
pub const WIDTH: u32 = 800;

/// Height of the display, in pixels.
pub const HEIGHT: u32 = 480;

/// Background color of a new driver.
pub const DEFAULT_BACKGROUND_COLOR: Color = Color::White;

/// A low busy line means the panel is busy.
pub const IS_BUSY_LOW: bool = true;

/// How long the reset line is held low, in milliseconds.
pub const RESET_PULSE_MS: u8 = 2;

/// Pause between two status queries while the panel is busy, in milliseconds.
pub const STATUS_POLL_MS: u8 = 20;

/// Pixel encoding of the frame buffer.
pub const ENCODING: PixelEncoding = PixelEncoding::Monochrome;

/// The panel's busy output is only valid once asked: while busy, query the
/// status and pause before the next sample.
pub open spec fn idle_wait() -> Wait {
    Wait {
        busy_is_low: IS_BUSY_LOW,
        poll: Poll::Query { opcode: Command::GetStatus.spec_address(), interval_ms: STATUS_POLL_MS },
    }
}

pub open spec fn wait_spec() -> Seq<BusEvent> {
    seq![BusEvent::WaitIdle(idle_wait())]
}

pub open spec fn cmd(c: Command) -> Seq<BusEvent> {
    command_frame(c.spec_address())
}

pub open spec fn cmd_data(c: Command, d: Seq<u8>) -> Seq<BusEvent> {
    command_data_frame(c.spec_address(), d)
}

/// The resolution, width then height, each as a big-endian 16-bit field.
pub open spec fn resolution_sequence() -> Seq<BusEvent> {
    cmd(Command::TconResolution) + data_frame(seq![(WIDTH / 256) as u8]) + data_frame(
        seq![(WIDTH % 256) as u8],
    ) + data_frame(seq![(HEIGHT / 256) as u8]) + data_frame(seq![(HEIGHT % 256) as u8])
}

/// Booster and power settings, power on, then a wait.
pub open spec fn power_up_sequence() -> Seq<BusEvent> {
    cmd_data(Command::BoosterSoftStart, seq![0x17u8, 0x17u8, 0x27u8, 0x17u8]) + cmd_data(
        Command::PowerSetting,
        seq![0x07u8, 0x17u8, 0x3Fu8, 0x3Fu8],
    ) + cmd(Command::PowerOn) + wait_spec()
}

/// Panel, PLL, resolution, dual bus, timing and VCOM registers.
pub open spec fn register_sequence() -> Seq<BusEvent> {
    cmd_data(Command::PanelSetting, seq![0x1Fu8]) + cmd_data(Command::PllControl, seq![0x06u8])
        + cmd_data(Command::TconResolution, seq![0x03u8, 0x20u8, 0x01u8, 0xE0u8]) + cmd_data(
        Command::DualSpi,
        seq![0x00u8],
    ) + cmd_data(Command::TconSetting, seq![0x22u8]) + cmd_data(
        Command::VcomAndDataIntervalSetting,
        seq![0x10u8, 0x07u8],
    )
}

/// Reset, power up, the registers, then a wait.
pub open spec fn init_sequence() -> Seq<BusEvent> {
    reset_sequence(RESET_PULSE_MS) + power_up_sequence() + register_sequence() + wait_spec()
}

/// Power off, then deep sleep, each after a wait.
pub open spec fn sleep_sequence() -> Seq<BusEvent> {
    wait_spec() + cmd(Command::PowerOff) + wait_spec() + cmd_data(Command::DeepSleep, seq![0xA5u8])
}

/// A wait, then the buffer as the new-data plane.
pub open spec fn update_sequence(buffer: Seq<u8>) -> Seq<BusEvent> {
    wait_spec() + cmd_data(Command::DataStartTransmission2, buffer)
}

/// A wait, then the refresh.
pub open spec fn display_sequence() -> Seq<BusEvent> {
    wait_spec() + cmd(Command::DisplayRefresh)
}

/// Bytes of one plane of a whole frame.
pub open spec fn fill_len() -> nat {
    ((WIDTH as int) * (HEIGHT as int) / (ENCODING.spec_pixels_per_byte() as int)) as nat
}

/// The byte that fills a plane with `c`: this panel reads a set bit as
/// black.
pub open spec fn fill_byte(c: Color) -> u8 {
    c.spec_inverse().spec_byte_value()
}

/// Both planes filled with `c`, then displayed.
pub open spec fn clear_sequence(c: Color) -> Seq<BusEvent> {
    wait_spec() + resolution_sequence() + cmd(Command::DataStartTransmission1) + data_frame(
        repeat(fill_byte(c), fill_len()),
    ) + cmd(Command::DataStartTransmission2) + data_frame(repeat(fill_byte(c), fill_len()))
        + display_sequence()
}

/// Driver for the 7.5 inch (V2) monochrome panel.
pub struct Epd7in5 {
    interface: DisplayInterface,
    color: Color,
}

impl View for Epd7in5 {
    type V = PanelState<Color>;

    closed spec fn view(&self) -> PanelState<Color> {
        PanelState { pending: self.interface@, color: self.color }
    }
}

impl Epd7in5 {
    fn init(&mut self)
        ensures
            final(self)@ == old(self)@.send(init_sequence()),
    {
        let ghost s0 = self@.pending;
        self.interface.reset(RESET_PULSE_MS);
        self.power_up();
        self.send_registers();
        self.wait_until_idle();
        proof {
            let r = reset_sequence(RESET_PULSE_MS);
            lemma_seq_add_assoc(s0, r, power_up_sequence());
            lemma_seq_add_assoc(s0, r + power_up_sequence(), register_sequence());
            lemma_seq_add_assoc(s0, r + power_up_sequence() + register_sequence(), wait_spec());
        }
    }

    fn power_up(&mut self)
        ensures
            final(self)@ == old(self)@.send(power_up_sequence()),
    {
        let d: &[u8] = &[0x17, 0x17, 0x27, 0x17];
        assert(d@ =~= seq![0x17u8, 0x17u8, 0x27u8, 0x17u8]);
        self.cmd_with_data(Command::BoosterSoftStart, d);
        let d: &[u8] = &[0x07, 0x17, 0x3F, 0x3F];
        assert(d@ =~= seq![0x07u8, 0x17u8, 0x3Fu8, 0x3Fu8]);
        self.cmd_with_data(Command::PowerSetting, d);
        self.command(Command::PowerOn);
        self.wait_until_idle();
        proof {
            broadcast use lemma_seq_add_assoc;
        }
    }

    fn send_registers(&mut self)
        ensures
            final(self)@ == old(self)@.send(register_sequence()),
    {
        let d: &[u8] = &[0x1F];
        assert(d@ =~= seq![0x1Fu8]);
        self.cmd_with_data(Command::PanelSetting, d);
        let d: &[u8] = &[0x06];
        assert(d@ =~= seq![0x06u8]);
        self.cmd_with_data(Command::PllControl, d);
        let d: &[u8] = &[0x03, 0x20, 0x01, 0xE0];
        assert(d@ =~= seq![0x03u8, 0x20u8, 0x01u8, 0xE0u8]);
        self.cmd_with_data(Command::TconResolution, d);
        let d: &[u8] = &[0x00];
        assert(d@ =~= seq![0x00u8]);
        self.cmd_with_data(Command::DualSpi, d);
        let d: &[u8] = &[0x22];
        assert(d@ =~= seq![0x22u8]);
        self.cmd_with_data(Command::TconSetting, d);
        let d: &[u8] = &[0x10, 0x07];
        assert(d@ =~= seq![0x10u8, 0x07u8]);
        self.cmd_with_data(Command::VcomAndDataIntervalSetting, d);
        proof {
            broadcast use lemma_seq_add_assoc;
        }
    }

    fn command(&mut self, command: Command)
        ensures
            final(self)@ == old(self)@.send(cmd(command)),
    {
        self.interface.cmd(command.address());
    }

    fn send_data(&mut self, data: &[u8])
        ensures
            final(self)@ == old(self)@.send(data_frame(data@)),
    {
        self.interface.data(data);
    }

    fn cmd_with_data(&mut self, command: Command, data: &[u8])
        ensures
            final(self)@ == old(self)@.send(cmd_data(command, data@)),
    {
        self.interface.cmd_with_data(command.address(), data);
    }

    /// Blocks until the panel is idle, querying its status on each busy
    /// sample.
    fn wait_until_idle(&mut self)
        ensures
            final(self)@ == old(self)@.send(wait_spec()),
    {
        let wait = Wait {
            busy_is_low: IS_BUSY_LOW,
            poll: Poll::Query { opcode: Command::GetStatus.address(), interval_ms: STATUS_POLL_MS },
        };
        self.interface.wait_until_idle(wait);
    }

    fn send_resolution(&mut self)
        ensures
            final(self)@ == old(self)@.send(resolution_sequence()),
    {
        let w = self.width();
        let h = self.height();
        let d0: &[u8] = &[(w / 256) as u8];
        let d1: &[u8] = &[(w % 256) as u8];
        let d2: &[u8] = &[(h / 256) as u8];
        let d3: &[u8] = &[(h % 256) as u8];
        assert(d0@ =~= seq![(WIDTH / 256) as u8]);
        assert(d1@ =~= seq![(WIDTH % 256) as u8]);
        assert(d2@ =~= seq![(HEIGHT / 256) as u8]);
        assert(d3@ =~= seq![(HEIGHT % 256) as u8]);
        self.command(Command::TconResolution);
        self.send_data(d0);
        self.send_data(d1);
        self.send_data(d2);
        self.send_data(d3);
        proof {
            broadcast use lemma_seq_add_assoc;
        }
    }
}

impl WaveshareDisplay for Epd7in5 {
    type DisplayColor = Color;

    open spec fn state(&self) -> PanelState<Color> {
        self@
    }

    open spec fn default_color() -> Color {
        DEFAULT_BACKGROUND_COLOR
    }

    open spec fn init_spec() -> Seq<BusEvent> {
        init_sequence()
    }

    open spec fn sleep_spec() -> Seq<BusEvent> {
        sleep_sequence()
    }

    open spec fn update_spec(buffer: Seq<u8>) -> Seq<BusEvent> {
        update_sequence(buffer)
    }

    open spec fn display_spec() -> Seq<BusEvent> {
        display_sequence()
    }

    open spec fn clear_spec(color: Color) -> Seq<BusEvent> {
        clear_sequence(color)
    }

    open spec fn spec_busy_is_low() -> bool {
        IS_BUSY_LOW
    }

    open spec fn spec_width() -> u32 {
        WIDTH
    }

    open spec fn spec_height() -> u32 {
        HEIGHT
    }

    open spec fn supports_partial() -> bool {
        false
    }

    open spec fn supports_lut() -> bool {
        false
    }

    /// A driver with the default background color and the full init
    /// sequence queued.
    fn new() -> Self {
        let interface = DisplayInterface::new();
        let mut epd = Epd7in5 { interface, color: DEFAULT_BACKGROUND_COLOR };
        epd.init();
        assert(Seq::<BusEvent>::empty() + init_sequence() =~= init_sequence());
        epd
    }

    /// Runs the init sequence again, after deep sleep or to resynchronise.
    fn wake_up(&mut self) {
        self.init()
    }

    /// Powers the panel off and puts it into deep sleep; only `wake_up`
    /// brings it back.
    fn sleep(&mut self) {
        self.wait_until_idle();
        self.command(Command::PowerOff);
        self.wait_until_idle();
        let d: &[u8] = &[0xA5];
        assert(d@ =~= seq![0xA5u8]);
        self.cmd_with_data(Command::DeepSleep, d);
        proof {
            broadcast use lemma_seq_add_assoc;
        }
    }

    /// Streams a whole frame, eight pixels to a byte, to the panel's memory.
    fn update_frame(&mut self, buffer: &[u8]) {
        let ghost s0 = self@.pending;
        self.wait_until_idle();
        self.cmd_with_data(Command::DataStartTransmission2, buffer);
        proof {
            lemma_seq_add_assoc(s0, wait_spec(), cmd_data(Command::DataStartTransmission2, buffer@));
        }
    }

    /// Partial updates are not offered by this panel: always refused, and
    /// nothing is queued.
    fn update_partial_frame<S, P, D>(
        &mut self,
        _buffer: &[u8],
        _x: u32,
        _y: u32,
        _width: u32,
        _height: u32,
    ) -> Result<(), Error<S, P, D>> {
        Err(Error::NotImplemented)
    }

    /// Shows the frame in the panel's memory.
    fn display_frame(&mut self) {
        let ghost s0 = self@.pending;
        self.wait_until_idle();
        self.command(Command::DisplayRefresh);
        proof {
            lemma_seq_add_assoc(s0, wait_spec(), cmd(Command::DisplayRefresh));
        }
    }

    /// `update_frame`, then `display_frame`.
    fn update_and_display_frame(&mut self, buffer: &[u8]) {
        let ghost s0 = self@.pending;
        self.update_frame(buffer);
        self.display_frame();
        proof {
            lemma_seq_add_assoc(s0, update_sequence(buffer@), display_sequence());
        }
    }

    /// Fills both planes of the whole frame with the background color and
    /// displays it.
    fn clear_frame(&mut self) {
        let ghost s0 = self@.pending;
        let bg = self.color.inverse().get_byte_value();
        let len = ENCODING.buffer_len(WIDTH, HEIGHT);
        self.wait_until_idle();
        self.send_resolution();
        self.command(Command::DataStartTransmission1);
        self.interface.data_x_times(bg, len);
        self.command(Command::DataStartTransmission2);
        self.interface.data_x_times(bg, len);
        self.display_frame();
        proof {
            let f = data_frame(repeat(fill_byte(self.color), fill_len()));
            let c1 = cmd(Command::DataStartTransmission1);
            let c2 = cmd(Command::DataStartTransmission2);
            let p = wait_spec() + resolution_sequence();
            lemma_seq_add_assoc(s0, wait_spec(), resolution_sequence());
            lemma_seq_add_assoc(s0, p, c1);
            lemma_seq_add_assoc(s0, p + c1, f);
            lemma_seq_add_assoc(s0, p + c1 + f, c2);
            lemma_seq_add_assoc(s0, p + c1 + f + c2, f);
            lemma_seq_add_assoc(s0, p + c1 + f + c2 + f, display_sequence());
        }
    }

    /// Sets the color `clear_frame` fills with.
    fn set_background_color(&mut self, color: Color) {
        self.color = color;
    }

    /// The color `clear_frame` fills with.
    fn background_color(&self) -> &Color {
        &self.color
    }

    /// Width of the display, in pixels.
    fn width(&self) -> u32 {
        WIDTH
    }

    /// Height of the display, in pixels.
    fn height(&self) -> u32 {
        HEIGHT
    }

    /// Custom waveform tables are not offered by this panel: always
    /// refused, and nothing is queued.
    fn set_lut<S, P, D>(&mut self, _refresh_rate: Option<RefreshLut>) -> Result<(), Error<S, P, D>> {
        Err(Error::NotImplemented)
    }

    /// Whether the panel is busy, given one sample of the busy line.
    fn is_busy(&self, line_is_low: bool) -> bool {
        DisplayInterface::is_busy(line_is_low, IS_BUSY_LOW)
    }

    /// Hands over the queued signals, oldest first, for the host to perform.
    fn take_signals(&mut self) -> Vec<Signal> {
        self.interface.take_signals()
    }
}

/// A clear streams exactly one frame into each plane: width times height
/// over the pixels per byte, every byte the background color.
pub proof fn lemma_clear_fill_length(c: Color)
    ensures
        fill_len() * ENCODING.spec_pixels_per_byte() == WIDTH * HEIGHT,
        payload(data_frame(repeat(fill_byte(c), fill_len()))) == repeat(fill_byte(c), fill_len()),
        repeat(fill_byte(c), fill_len()).len() == WIDTH * HEIGHT
            / ENCODING.spec_pixels_per_byte() as int,
{
    lemma_data_frame_payload(repeat(fill_byte(c), fill_len()));
}

} // verus!
