use epd_waveshare::color::{Color, OctColor, PixelEncoding};
use epd_waveshare::epd5in65f::command::Command as Command5in65f;
use epd_waveshare::epd5in65f::{self, Epd5in65f};
use epd_waveshare::epd7in5_v2::command::Command as Command7in5;
use epd_waveshare::epd7in5_v2::{self, Epd7in5};
use epd_waveshare::interface::{DisplayInterface, Poll, Signal, Wait, MAX_TRANSFER};
use epd_waveshare::traits::WaveshareDisplay;
use epd_waveshare::{Error, RefreshLut};

type Fault = Error<(), (), ()>;

/// Opcodes written while data/command select is low, in order.
fn commands(signals: &[Signal]) -> Vec<u8> {
    let mut data_mode = false;
    let mut out = Vec::new();
    for s in signals {
        match s {
            Signal::Dc(level) => data_mode = *level,
            Signal::Write(bytes) if !data_mode => out.extend_from_slice(bytes),
            _ => {}
        }
    }
    out
}

/// The payload of each data transfer, in order.
fn data_runs(signals: &[Signal]) -> Vec<Vec<u8>> {
    let mut runs: Vec<Vec<u8>> = Vec::new();
    let mut data_mode = false;
    for s in signals {
        match s {
            Signal::Dc(true) => {
                data_mode = true;
                runs.push(Vec::new());
            }
            Signal::Dc(false) => data_mode = false,
            Signal::Write(bytes) if data_mode => runs.last_mut().unwrap().extend_from_slice(bytes),
            _ => {}
        }
    }
    runs
}

/// Opcodes and waits, in order: a wait shows as `None`.
fn opcodes_and_waits(signals: &[Signal]) -> Vec<Option<u8>> {
    let mut data_mode = false;
    let mut out = Vec::new();
    for s in signals {
        match s {
            Signal::Dc(level) => data_mode = *level,
            Signal::Write(bytes) if !data_mode => out.push(Some(bytes[0])),
            Signal::WaitIdle(_) => out.push(None),
            _ => {}
        }
    }
    out
}

#[test]
fn epd_size() {
    assert_eq!(epd5in65f::WIDTH, 600);
    assert_eq!(epd5in65f::HEIGHT, 448);
    assert_eq!(epd5in65f::DEFAULT_BACKGROUND_COLOR, OctColor::White);
}

#[test]
fn mod_epd_size() {
    assert_eq!(epd7in5_v2::WIDTH, 800);
    assert_eq!(epd7in5_v2::HEIGHT, 480);
    assert_eq!(epd7in5_v2::DEFAULT_BACKGROUND_COLOR, Color::White);
}

#[test]
fn clear_fill_length_seven_color() {
    let mut epd = Epd5in65f::new();
    let _ = epd.take_signals();
    epd.clear_frame();
    let signals = epd.take_signals();
    let runs = data_runs(&signals);
    // resolution (four single bytes), then the fill
    assert_eq!(runs.len(), 5);
    assert_eq!(runs[0], vec![0x02]);
    assert_eq!(runs[1], vec![0x58]);
    assert_eq!(runs[2], vec![0x01]);
    assert_eq!(runs[3], vec![0xC0]);
    assert_eq!(runs[4].len(), 134400);
    assert_eq!(runs[4].len() as u32, epd.width() * epd.height() / 2);
    assert!(runs[4].iter().all(|b| *b == 0x11));
}

#[test]
fn clear_fill_length_monochrome() {
    let mut epd = Epd7in5::new();
    let _ = epd.take_signals();
    epd.clear_frame();
    let signals = epd.take_signals();
    let runs = data_runs(&signals);
    assert_eq!(runs.len(), 6);
    assert_eq!(runs[4].len(), 48000);
    assert_eq!(runs[5].len(), 48000);
    assert_eq!(runs[4].len() as u32, epd.width() * epd.height() / 8);
    assert!(runs[4].iter().all(|b| *b == 0x00));
    assert!(runs[5].iter().all(|b| *b == 0x00));
    assert_eq!(
        commands(&signals),
        vec![
            Command7in5::TconResolution.address(),
            Command7in5::DataStartTransmission1.address(),
            Command7in5::DataStartTransmission2.address(),
            Command7in5::DisplayRefresh.address(),
        ]
    );
}

#[test]
fn clear_black_monochrome_sets_every_bit() {
    let mut epd = Epd7in5::new();
    epd.set_background_color(Color::Black);
    let _ = epd.take_signals();
    epd.clear_frame();
    let runs = data_runs(&epd.take_signals());
    assert!(runs[4].iter().all(|b| *b == 0xFF));
    assert!(runs[5].iter().all(|b| *b == 0xFF));
}

#[test]
fn clear_uses_background_color_seven_color() {
    let mut epd = Epd5in65f::new();
    epd.set_background_color(OctColor::Red);
    let _ = epd.take_signals();
    epd.clear_frame();
    let runs = data_runs(&epd.take_signals());
    assert!(runs[4].iter().all(|b| *b == 0x44));
}

#[test]
fn is_busy_after_new_follows_polarity() {
    let epd = Epd5in65f::new();
    assert!(epd.is_busy(true));
    assert!(!epd.is_busy(false));
    let epd = Epd7in5::new();
    assert!(epd.is_busy(true));
    assert!(!epd.is_busy(false));
    assert!(DisplayInterface::is_busy(false, false));
    assert!(!DisplayInterface::is_busy(true, false));
}

#[test]
fn sleep_wake_twice_repeats_first_cycle() {
    let mut epd = Epd5in65f::new();
    epd.set_background_color(OctColor::Blue);
    let _ = epd.take_signals();
    epd.sleep();
    epd.wake_up();
    let first = epd.take_signals();
    epd.sleep();
    epd.wake_up();
    let second = epd.take_signals();
    assert_eq!(first, second);
    assert_eq!(*epd.background_color(), OctColor::Blue);
    assert_eq!((epd.width(), epd.height()), (600, 448));

    let mut epd = Epd7in5::new();
    let _ = epd.take_signals();
    epd.sleep();
    epd.wake_up();
    let first = epd.take_signals();
    epd.sleep();
    epd.wake_up();
    let second = epd.take_signals();
    assert_eq!(first, second);
    assert_eq!(*epd.background_color(), Color::White);
    assert_eq!((epd.width(), epd.height()), (800, 480));
}

#[test]
fn background_color_round_trip() {
    let mut epd = Epd5in65f::new();
    for nibble in 0u8..8 {
        let c = OctColor::from_nibble(nibble).unwrap();
        epd.set_background_color(c);
        assert_eq!(*epd.background_color(), c);
    }
    assert_eq!(OctColor::from_nibble(8), None);
    let mut epd = Epd7in5::new();
    epd.set_background_color(Color::Black);
    assert_eq!(*epd.background_color(), Color::Black);
}

#[test]
fn long_payload_is_chunked_without_changing_bytes() {
    let payload: Vec<u8> = (0..10000u32).map(|i| (i % 251) as u8).collect();
    let mut bus = DisplayInterface::new();
    bus.data(&payload);
    let signals = bus.take_signals();
    assert_eq!(signals.len(), 6);
    assert_eq!(signals[0], Signal::Dc(true));
    assert_eq!(signals[1], Signal::Cs(false));
    assert_eq!(signals[5], Signal::Cs(true));
    let mut joined = Vec::new();
    let mut sizes = Vec::new();
    for s in &signals[2..5] {
        match s {
            Signal::Write(b) => {
                sizes.push(b.len());
                joined.extend_from_slice(b);
            }
            other => panic!("unexpected {:?}", other),
        }
    }
    assert_eq!(sizes, vec![MAX_TRANSFER, MAX_TRANSFER, 10000 - 2 * MAX_TRANSFER]);
    assert_eq!(joined, payload);
}

#[test]
fn short_payload_is_one_write() {
    let mut bus = DisplayInterface::new();
    bus.data(&[1, 2, 3]);
    assert_eq!(
        bus.take_signals(),
        vec![Signal::Dc(true), Signal::Cs(false), Signal::Write(vec![1, 2, 3]), Signal::Cs(true)]
    );
}

#[test]
fn exact_transfer_size_is_one_write() {
    let mut bus = DisplayInterface::new();
    bus.data(&vec![7u8; 4096]);
    let signals = bus.take_signals();
    assert_eq!(signals.len(), 4);
    assert_eq!(signals[2], Signal::Write(vec![7u8; 4096]));
}

#[test]
fn empty_payload_writes_nothing() {
    let mut bus = DisplayInterface::new();
    bus.data(&[]);
    assert_eq!(bus.take_signals(), vec![Signal::Dc(true), Signal::Cs(false), Signal::Cs(true)]);
    bus.data_x_times(0xAB, 0);
    assert_eq!(bus.take_signals(), vec![Signal::Dc(true), Signal::Cs(false), Signal::Cs(true)]);
}

#[test]
fn repeated_byte_matches_plain_data() {
    let mut a = DisplayInterface::new();
    a.data_x_times(0x5A, 9000);
    let mut b = DisplayInterface::new();
    b.data(&vec![0x5A; 9000]);
    assert_eq!(a.take_signals(), b.take_signals());
}

#[test]
fn command_framing() {
    let mut bus = DisplayInterface::new();
    bus.cmd_with_data(0x61, &[0x02, 0x58]);
    assert_eq!(
        bus.take_signals(),
        vec![
            Signal::Dc(false),
            Signal::Cs(false),
            Signal::Write(vec![0x61]),
            Signal::Cs(true),
            Signal::Dc(true),
            Signal::Cs(false),
            Signal::Write(vec![0x02, 0x58]),
            Signal::Cs(true),
        ]
    );
}

#[test]
fn reset_pulse_uses_model_duration() {
    let mut bus = DisplayInterface::new();
    bus.reset(10);
    assert_eq!(
        bus.take_signals(),
        vec![
            Signal::Rst(true),
            Signal::DelayMs(200),
            Signal::Rst(false),
            Signal::DelayMs(10),
            Signal::Rst(true),
            Signal::DelayMs(200),
        ]
    );
    let mut epd = Epd7in5::new();
    let signals = epd.take_signals();
    assert_eq!(&signals[..6], &[
        Signal::Rst(true),
        Signal::DelayMs(200),
        Signal::Rst(false),
        Signal::DelayMs(2),
        Signal::Rst(true),
        Signal::DelayMs(200),
    ]);
}

#[test]
fn seven_color_clear_update_display_scenario() {
    let mut epd = Epd5in65f::new();
    let init = epd.take_signals();
    assert_eq!(
        commands(&init),
        vec![0x00, 0x01, 0x03, 0x06, 0x30, 0x41, 0x50, 0x60, 0x61, 0xE3, 0x50]
    );
    epd.clear_frame();
    let buffer = vec![0u8; 134400];
    epd.update_frame(&buffer);
    epd.display_frame();
    let signals = epd.take_signals();
    let res = Some(Command5in65f::TconResolution.address());
    let dtm1 = Some(Command5in65f::DataStartTransmission1.address());
    let on = Some(Command5in65f::PowerOn.address());
    let refresh = Some(Command5in65f::DisplayRefresh.address());
    let off = Some(Command5in65f::PowerOff.address());
    assert_eq!(
        opcodes_and_waits(&signals),
        vec![
            None, res, dtm1, None, on, None, refresh, None, off, None,
            None, res, dtm1,
            None, on, None, refresh, None, off, None,
        ]
    );
    let runs = data_runs(&signals);
    assert_eq!(runs.len(), 10);
    assert_eq!(runs[9], buffer);
    // the last wait of a display cycle waits on the opposite polarity
    let waits: Vec<Wait> = signals
        .iter()
        .filter_map(|s| match s {
            Signal::WaitIdle(w) => Some(*w),
            _ => None,
        })
        .collect();
    assert_eq!(waits.len(), 10);
    assert_eq!(waits[4], Wait { busy_is_low: false, poll: Poll::Passive });
    assert_eq!(waits[9], Wait { busy_is_low: false, poll: Poll::Passive });
    assert_eq!(waits[8], Wait { busy_is_low: true, poll: Poll::Passive });
    assert_eq!(waits[0], Wait { busy_is_low: true, poll: Poll::Passive });
}

#[test]
fn monochrome_wait_queries_status() {
    let mut epd = Epd7in5::new();
    let _ = epd.take_signals();
    epd.display_frame();
    let signals = epd.take_signals();
    let wait = match signals[0] {
        Signal::WaitIdle(w) => w,
        ref other => panic!("unexpected {:?}", other),
    };
    assert_eq!(wait.busy_is_low, true);
    assert_eq!(wait.poll(false), None);
    assert_eq!(
        wait.poll(true),
        Some(vec![
            Signal::Dc(false),
            Signal::Cs(false),
            Signal::Write(vec![0x71]),
            Signal::Cs(true),
            Signal::DelayMs(20),
        ])
    );
    assert_eq!(commands(&signals[1..]), vec![0x12]);
    let passive = Wait { busy_is_low: false, poll: Poll::Passive };
    assert_eq!(passive.poll(true), None);
    assert_eq!(passive.poll(false), Some(vec![]));
}

#[test]
fn monochrome_update_uses_second_plane() {
    let mut epd = Epd7in5::new();
    let _ = epd.take_signals();
    let buffer = vec![0xF0u8; 48000];
    epd.update_and_display_frame(&buffer);
    let signals = epd.take_signals();
    assert_eq!(commands(&signals), vec![0x13, 0x12]);
    assert_eq!(data_runs(&signals), vec![buffer]);
}

#[test]
fn unsupported_operations_are_refused() {
    let mut epd = Epd5in65f::new();
    let _ = epd.take_signals();
    let r: Result<(), Fault> = epd.update_partial_frame(&[0, 1], 0, 0, 2, 2);
    assert_eq!(r, Err(Error::NotImplemented));
    let r: Result<(), Fault> = epd.set_lut(Some(RefreshLut::Quick));
    assert_eq!(r, Err(Error::NotImplemented));
    assert!(epd.take_signals().is_empty());
    let mut epd = Epd7in5::new();
    let _ = epd.take_signals();
    let r: Result<(), Fault> = epd.update_partial_frame(&[0, 1], 0, 0, 2, 2);
    assert_eq!(r, Err(Error::NotImplemented));
    let r: Result<(), Fault> = epd.set_lut(None);
    assert_eq!(r, Err(Error::NotImplemented));
    assert!(epd.take_signals().is_empty());
}

#[test]
fn pixel_packing() {
    assert_eq!(OctColor::colors_byte(OctColor::Black, OctColor::White), 0x01);
    assert_eq!(OctColor::colors_byte(OctColor::Red, OctColor::Orange), 0x46);
    assert_eq!(OctColor::HiZ.get_nibble(), 7);
    assert_eq!(Color::White.get_byte_value(), 0xFF);
    assert_eq!(Color::Black.inverse(), Color::White);
    assert_eq!(PixelEncoding::Monochrome.pixels_per_byte(), 8);
    assert_eq!(PixelEncoding::Indexed4.buffer_len(600, 448), 134400);
    assert_eq!(PixelEncoding::Monochrome.buffer_len(800, 480), 48000);
}

fn sleep_wake_cycle<T: WaveshareDisplay>(epd: &mut T) -> Vec<Signal> {
    epd.sleep();
    epd.wake_up();
    epd.take_signals()
}

#[test]
fn lifecycle_is_uniform_across_models() {
    let mut a = Epd5in65f::new();
    let _ = a.take_signals();
    assert_eq!(sleep_wake_cycle(&mut a), sleep_wake_cycle(&mut a));
    let mut b = Epd7in5::new();
    let _ = b.take_signals();
    assert_eq!(sleep_wake_cycle(&mut b), sleep_wake_cycle(&mut b));
    let seven = commands(&sleep_wake_cycle(&mut a));
    let mono = commands(&sleep_wake_cycle(&mut b));
    assert_eq!(seven[0], 0x07);
    assert_eq!(mono[..2], [0x02, 0x07]);
}
