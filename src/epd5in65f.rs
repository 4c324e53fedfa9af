//! Driver for the Waveshare 5.65 inch seven-color (F) panel: 600 by 448
//! pixels, two pixels to a byte, the resolution sent before every
//! transmission, and a power-on / refresh / power-off display cycle.
use vstd::prelude::*;

use crate::color::{OctColor, PixelEncoding};
use crate::interface::{
    command_data_frame, command_frame, data_frame, payload, repeat, reset_sequence,
    BusEvent, DisplayInterface, PanelState, Poll, Signal, Wait, lemma_data_frame_payload, lemma_seq_add_assoc,
};
use crate::traits::WaveshareDisplay;
use crate::{Error, RefreshLut};

pub mod command;
use self::command::Command;

verus! {

/// Width of the display, in pixels.
pub const WIDTH: u32 = 600;

/// Height of the display, in pixels.
pub const HEIGHT: u32 = 448;

/// Background color of a new driver.
pub const DEFAULT_BACKGROUND_COLOR: OctColor = OctColor::White;

/// A low busy line means the panel is busy.
pub const IS_BUSY_LOW: bool = true;

/// How long the reset line is held low, in milliseconds.
pub const RESET_PULSE_MS: u8 = 2;

/// Pause after the flash-mode command of the init sequence, in milliseconds.
pub const FLASH_MODE_DELAY_MS: u8 = 100;

/// Pixel encoding of the frame buffer.
pub const ENCODING: PixelEncoding = PixelEncoding::Indexed4;

/// Waits while the busy line is low.
pub open spec fn wait_busy_high_spec() -> BusEvent {
    BusEvent::WaitIdle(Wait { busy_is_low: true, poll: Poll::Passive })
}

/// Waits while the busy line is high: the end of a refresh.
pub open spec fn wait_busy_low_spec() -> BusEvent {
    BusEvent::WaitIdle(Wait { busy_is_low: false, poll: Poll::Passive })
}

pub open spec fn cmd(c: Command) -> Seq<BusEvent> {
    command_frame(c.spec_address())
}

pub open spec fn cmd_data(c: Command, d: Seq<u8>) -> Seq<BusEvent> {
    command_data_frame(c.spec_address(), d)
}

/// The resolution, width then height, each as a big-endian 16-bit field.
pub open spec fn resolution_sequence() -> Seq<BusEvent> {
    cmd(Command::TconResolution) + data_frame(seq![(WIDTH / 256) as u8]) + data_frame(
        seq![(WIDTH % 256) as u8],
    ) + data_frame(seq![(HEIGHT / 256) as u8]) + data_frame(seq![(HEIGHT % 256) as u8])
}

/// Panel, power, booster, PLL, temperature, VCOM and timing registers.
pub open spec fn register_sequence() -> Seq<BusEvent> {
    cmd_data(Command::PanelSetting, seq![0xEFu8, 0x08u8]) + cmd_data(
        Command::PowerSetting,
        seq![0x37u8, 0x00u8, 0x23u8, 0x23u8],
    ) + cmd_data(Command::PowerOffSequenceSetting, seq![0x00u8]) + cmd_data(
        Command::BoosterSoftStart,
        seq![0xC7u8, 0xC7u8, 0x1Du8],
    ) + cmd_data(Command::PllControl, seq![0x3Cu8]) + cmd_data(
        Command::TemperatureSensor,
        seq![0x00u8],
    ) + cmd_data(Command::VcomAndDataIntervalSetting, seq![0x37u8]) + cmd_data(
        Command::TconSetting,
        seq![0x22u8],
    )
}

/// Flash mode, a pause, then the VCOM interval once more.
pub open spec fn flash_sequence() -> Seq<BusEvent> {
    cmd_data(Command::FlashMode, seq![0xAAu8]) + seq![BusEvent::DelayMs(FLASH_MODE_DELAY_MS)]
        + cmd_data(Command::VcomAndDataIntervalSetting, seq![0x37u8])
}

/// Reset, the registers, the resolution, then flash mode.
pub open spec fn init_sequence() -> Seq<BusEvent> {
    reset_sequence(RESET_PULSE_MS) + register_sequence() + resolution_sequence()
        + flash_sequence()
}

/// Deep sleep.
pub open spec fn sleep_sequence() -> Seq<BusEvent> {
    cmd_data(Command::DeepSleep, seq![0xA5u8])
}

/// Wait, resolution, then the buffer as the one data plane.
pub open spec fn update_sequence(buffer: Seq<u8>) -> Seq<BusEvent> {
    seq![wait_busy_high_spec()] + resolution_sequence() + cmd_data(
        Command::DataStartTransmission1,
        buffer,
    )
}

/// Power on, refresh, power off, each after a wait; then wait for the end
/// of the refresh.
pub open spec fn display_sequence() -> Seq<BusEvent> {
    seq![wait_busy_high_spec()] + cmd(Command::PowerOn) + seq![wait_busy_high_spec()] + cmd(
        Command::DisplayRefresh,
    ) + seq![wait_busy_high_spec()] + cmd(Command::PowerOff) + seq![wait_busy_low_spec()]
}

/// Bytes of a whole frame.
pub open spec fn fill_len() -> nat {
    ((WIDTH as int) * (HEIGHT as int) / (ENCODING.spec_pixels_per_byte() as int)) as nat
}

/// The whole frame filled with `c`, then displayed.
pub open spec fn clear_sequence(c: OctColor) -> Seq<BusEvent> {
    seq![wait_busy_high_spec()] + resolution_sequence() + cmd(Command::DataStartTransmission1)
        + data_frame(repeat(OctColor::spec_colors_byte(c, c), fill_len())) + display_sequence()
}

/// Driver for the 5.65 inch seven-color panel.
pub struct Epd5in65f {
    interface: DisplayInterface,
    color: OctColor,
}

impl View for Epd5in65f {
    type V = PanelState<OctColor>;

    closed spec fn view(&self) -> PanelState<OctColor> {
        PanelState { pending: self.interface@, color: self.color }
    }
}

impl Epd5in65f {
    fn init(&mut self)
        ensures
            final(self)@ == old(self)@.send(init_sequence()),
    {
        let ghost s0 = self@.pending;
        self.interface.reset(RESET_PULSE_MS);
        self.send_registers();
        self.send_resolution();
        self.send_flash_mode();
        proof {
            let r = reset_sequence(RESET_PULSE_MS);
            lemma_seq_add_assoc(s0, r, register_sequence());
            lemma_seq_add_assoc(s0, r + register_sequence(), resolution_sequence());
            lemma_seq_add_assoc(
                s0,
                r + register_sequence() + resolution_sequence(),
                flash_sequence(),
            );
        }
    }

    fn send_flash_mode(&mut self)
        ensures
            final(self)@ == old(self)@.send(flash_sequence()),
    {
        let d: &[u8] = &[0xAA];
        assert(d@ =~= seq![0xAAu8]);
        self.cmd_with_data(Command::FlashMode, d);
        self.interface.delay_ms(FLASH_MODE_DELAY_MS);
        let d: &[u8] = &[0x37];
        assert(d@ =~= seq![0x37u8]);
        self.cmd_with_data(Command::VcomAndDataIntervalSetting, d);
        proof {
            broadcast use lemma_seq_add_assoc;
        }
    }

    fn send_registers(&mut self)
        ensures
            final(self)@ == old(self)@.send(register_sequence()),
    {
        let d: &[u8] = &[0xEF, 0x08];
        assert(d@ =~= seq![0xEFu8, 0x08u8]);
        self.cmd_with_data(Command::PanelSetting, d);
        let d: &[u8] = &[0x37, 0x00, 0x23, 0x23];
        assert(d@ =~= seq![0x37u8, 0x00u8, 0x23u8, 0x23u8]);
        self.cmd_with_data(Command::PowerSetting, d);
        let d: &[u8] = &[0x00];
        assert(d@ =~= seq![0x00u8]);
        self.cmd_with_data(Command::PowerOffSequenceSetting, d);
        let d: &[u8] = &[0xC7, 0xC7, 0x1D];
        assert(d@ =~= seq![0xC7u8, 0xC7u8, 0x1Du8]);
        self.cmd_with_data(Command::BoosterSoftStart, d);
        let d: &[u8] = &[0x3C];
        assert(d@ =~= seq![0x3Cu8]);
        self.cmd_with_data(Command::PllControl, d);
        let d: &[u8] = &[0x00];
        assert(d@ =~= seq![0x00u8]);
        self.cmd_with_data(Command::TemperatureSensor, d);
        let d: &[u8] = &[0x37];
        assert(d@ =~= seq![0x37u8]);
        self.cmd_with_data(Command::VcomAndDataIntervalSetting, d);
        let d: &[u8] = &[0x22];
        assert(d@ =~= seq![0x22u8]);
        self.cmd_with_data(Command::TconSetting, d);
        proof {
            broadcast use lemma_seq_add_assoc;
        }
    }

    fn cmd_with_data(&mut self, command: Command, data: &[u8])
        ensures
            final(self)@ == old(self)@.send(cmd_data(command, data@)),
    {
        self.interface.cmd_with_data(command.address(), data);
    }

    fn command(&mut self, command: Command)
        ensures
            final(self)@ == old(self)@.send(cmd(command)),
    {
        self.interface.cmd(command.address());
    }

    fn send_data(&mut self, data: &[u8])
        ensures
            final(self)@ == old(self)@.send(data_frame(data@)),
    {
        self.interface.data(data);
    }

    fn send_resolution(&mut self)
        ensures
            final(self)@ == old(self)@.send(resolution_sequence()),
    {
        let w = self.width();
        let h = self.height();
        let d0: &[u8] = &[(w / 256) as u8];
        let d1: &[u8] = &[(w % 256) as u8];
        let d2: &[u8] = &[(h / 256) as u8];
        let d3: &[u8] = &[(h % 256) as u8];
        assert(d0@ =~= seq![(WIDTH / 256) as u8]);
        assert(d1@ =~= seq![(WIDTH % 256) as u8]);
        assert(d2@ =~= seq![(HEIGHT / 256) as u8]);
        assert(d3@ =~= seq![(HEIGHT % 256) as u8]);
        self.command(Command::TconResolution);
        self.send_data(d0);
        self.send_data(d1);
        self.send_data(d2);
        self.send_data(d3);
        proof {
            broadcast use lemma_seq_add_assoc;
        }
    }

    fn wait_busy_high(&mut self)
        ensures
            final(self)@ == old(self)@.send(seq![wait_busy_high_spec()]),
    {
        self.interface.wait_until_idle(Wait { busy_is_low: true, poll: Poll::Passive });
    }

    fn wait_busy_low(&mut self)
        ensures
            final(self)@ == old(self)@.send(seq![wait_busy_low_spec()]),
    {
        self.interface.wait_until_idle(Wait { busy_is_low: false, poll: Poll::Passive });
    }
}

impl WaveshareDisplay for Epd5in65f {
    type DisplayColor = OctColor;

    open spec fn state(&self) -> PanelState<OctColor> {
        self@
    }

    open spec fn default_color() -> OctColor {
        DEFAULT_BACKGROUND_COLOR
    }

    open spec fn init_spec() -> Seq<BusEvent> {
        init_sequence()
    }

    open spec fn sleep_spec() -> Seq<BusEvent> {
        sleep_sequence()
    }

    open spec fn update_spec(buffer: Seq<u8>) -> Seq<BusEvent> {
        update_sequence(buffer)
    }

    open spec fn display_spec() -> Seq<BusEvent> {
        display_sequence()
    }

    open spec fn clear_spec(color: OctColor) -> Seq<BusEvent> {
        clear_sequence(color)
    }

    open spec fn spec_busy_is_low() -> bool {
        IS_BUSY_LOW
    }

    open spec fn spec_width() -> u32 {
        WIDTH
    }

    open spec fn spec_height() -> u32 {
        HEIGHT
    }

    open spec fn supports_partial() -> bool {
        false
    }

    open spec fn supports_lut() -> bool {
        false
    }

    /// A driver with the default background color and the full init
    /// sequence queued.
    fn new() -> Self {
        let interface = DisplayInterface::new();
        let mut epd = Epd5in65f { interface, color: DEFAULT_BACKGROUND_COLOR };
        epd.init();
        assert(Seq::<BusEvent>::empty() + init_sequence() =~= init_sequence());
        epd
    }

    /// Runs the init sequence again, after deep sleep or to resynchronise.
    fn wake_up(&mut self) {
        self.init()
    }

    /// Puts the panel into deep sleep; only `wake_up` brings it back.
    fn sleep(&mut self) {
        let d: &[u8] = &[0xA5];
        assert(d@ =~= seq![0xA5u8]);
        self.cmd_with_data(Command::DeepSleep, d);
    }

    /// Streams a whole frame, two pixels to a byte, to the panel's memory.
    fn update_frame(&mut self, buffer: &[u8]) {
        let ghost s0 = self@.pending;
        self.wait_busy_high();
        self.send_resolution();
        self.cmd_with_data(Command::DataStartTransmission1, buffer);
        proof {
            let w = seq![wait_busy_high_spec()];
            lemma_seq_add_assoc(s0, w, resolution_sequence());
            lemma_seq_add_assoc(
                s0,
                w + resolution_sequence(),
                cmd_data(Command::DataStartTransmission1, buffer@),
            );
        }
    }

    /// Partial updates are not offered by this panel: always refused, and
    /// nothing is queued.
    fn update_partial_frame<S, P, D>(
        &mut self,
        _buffer: &[u8],
        _x: u32,
        _y: u32,
        _width: u32,
        _height: u32,
    ) -> Result<(), Error<S, P, D>> {
        Err(Error::NotImplemented)
    }

    /// Shows the frame in the panel's memory: power on, refresh, power off.
    fn display_frame(&mut self) {
        self.wait_busy_high();
        self.command(Command::PowerOn);
        self.wait_busy_high();
        self.command(Command::DisplayRefresh);
        self.wait_busy_high();
        self.command(Command::PowerOff);
        self.wait_busy_low();
        proof {
            broadcast use lemma_seq_add_assoc;
        }
    }

    /// `update_frame`, then `display_frame`.
    fn update_and_display_frame(&mut self, buffer: &[u8]) {
        let ghost s0 = self@.pending;
        self.update_frame(buffer);
        self.display_frame();
        proof {
            lemma_seq_add_assoc(s0, update_sequence(buffer@), display_sequence());
        }
    }

    /// Fills the whole frame with the background color and displays it.
    fn clear_frame(&mut self) {
        let ghost s0 = self@.pending;
        let bg = OctColor::colors_byte(self.color, self.color);
        let len = ENCODING.buffer_len(WIDTH, HEIGHT);
        self.wait_busy_high();
        self.send_resolution();
        self.command(Command::DataStartTransmission1);
        self.interface.data_x_times(bg, len);
        self.display_frame();
        proof {
            let w = seq![wait_busy_high_spec()];
            let f = data_frame(repeat(OctColor::spec_colors_byte(self.color, self.color), fill_len()));
            let c = cmd(Command::DataStartTransmission1);
            lemma_seq_add_assoc(s0, w, resolution_sequence());
            lemma_seq_add_assoc(s0, w + resolution_sequence(), c);
            lemma_seq_add_assoc(s0, w + resolution_sequence() + c, f);
            lemma_seq_add_assoc(s0, w + resolution_sequence() + c + f, display_sequence());
        }
    }

    /// Sets the color `clear_frame` fills with.
    fn set_background_color(&mut self, color: OctColor) {
        self.color = color;
    }

    /// The color `clear_frame` fills with.
    fn background_color(&self) -> &OctColor {
        &self.color
    }

    /// Width of the display, in pixels.
    fn width(&self) -> u32 {
        WIDTH
    }

    /// Height of the display, in pixels.
    fn height(&self) -> u32 {
        HEIGHT
    }

    /// Custom waveform tables are not offered by this panel: always
    /// refused, and nothing is queued.
    fn set_lut<S, P, D>(&mut self, _refresh_rate: Option<RefreshLut>) -> Result<(), Error<S, P, D>> {
        Err(Error::NotImplemented)
    }

    /// Whether the panel is busy, given one sample of the busy line.
    fn is_busy(&self, line_is_low: bool) -> bool {
        DisplayInterface::is_busy(line_is_low, IS_BUSY_LOW)
    }

    /// Hands over the queued signals, oldest first, for the host to perform.
    fn take_signals(&mut self) -> Vec<Signal> {
        self.interface.take_signals()
    }
}

/// A clear streams exactly one frame: width times height over the pixels
/// per byte, each byte the background color for both of its pixels.
pub proof fn lemma_clear_fill_length(c: OctColor)
    ensures
        fill_len() * ENCODING.spec_pixels_per_byte() == WIDTH * HEIGHT,
        payload(data_frame(repeat(OctColor::spec_colors_byte(c, c), fill_len()))) == repeat(
            OctColor::spec_colors_byte(c, c),
            fill_len(),
        ),
        repeat(OctColor::spec_colors_byte(c, c), fill_len()).len() == WIDTH * HEIGHT
            / ENCODING.spec_pixels_per_byte() as int,
{
    lemma_data_frame_payload(repeat(OctColor::spec_colors_byte(c, c), fill_len()));
}

} // verus!
