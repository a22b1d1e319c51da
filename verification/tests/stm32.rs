use openrsynth::stm32::codec::check_device_id;
use std::convert::Infallible;

use openrsynth::stm32::board::{BoardGpio, DigitalInput};
use openrsynth::stm32::codec::{
    headphone_playback_steps, output_volume_value, CodecBus, CodecStep, Delay, Error, Wm8994,
    DEVICE_ID, I2C_ADDRESS,
};
use openrsynth::stm32::control::{Button, GpioConfig, GpioEvent, GpioHardware, GpioScanner, ScanError};

const BUTTON_COUNT: usize = 7;

#[derive(Clone, Copy)]
struct Pin(bool);

impl DigitalInput for Pin {
    type Error = Infallible;

    fn is_high(&mut self) -> Result<bool, Self::Error> {
        Ok(self.0)
    }

    fn is_low(&mut self) -> Result<bool, Self::Error> {
        Ok(!self.0)
    }
}

#[test]
fn reads_active_low_buttons_and_raw_encoder_levels() {
    let mut board = BoardGpio::new([Pin(true); BUTTON_COUNT], Pin(false), Pin(true), true);
    board.button_pin_mut(Button::Select).0 = false;

    assert_eq!(board.button_is_pressed(Button::Up), Ok(false));
    assert_eq!(board.button_is_pressed(Button::Select), Ok(true));
    assert_eq!(board.knob_state(), Ok((false, true)));
}

#[test]
fn active_high_buttons_read_high_as_pressed() {
    let mut board = BoardGpio::new([Pin(false); BUTTON_COUNT], Pin(true), Pin(true), false);
    board.button_pin_mut(Button::Off).0 = true;
    assert_eq!(board.button_is_pressed(Button::Off), Ok(true));
    assert_eq!(board.button_is_pressed(Button::On), Ok(false));
    let (a, b) = board.knob_pins_mut();
    a.0 = false;
    b.0 = false;
    assert_eq!(board.knob_state(), Ok((false, false)));
    let (buttons, knob_a, knob_b) = board.into_pins();
    assert!(buttons[Button::Off.index()].0);
    assert!(!knob_a.0 && !knob_b.0);
}

#[derive(Default)]
struct Bus {
    last_write: [u8; 4],
    writes: usize,
}

impl CodecBus for Bus {
    type Error = Infallible;

    fn write(&mut self, address: u8, bytes: &[u8; 4]) -> Result<(), Self::Error> {
        assert_eq!(address, I2C_ADDRESS);
        self.last_write.copy_from_slice(bytes);
        self.writes += 1;
        Ok(())
    }

    fn write_read(
        &mut self,
        address: u8,
        bytes: &[u8; 2],
        output: &mut [u8; 2],
    ) -> Result<(), Self::Error> {
        assert_eq!(address, I2C_ADDRESS);
        assert_eq!(bytes, &[0, 0]);
        output.copy_from_slice(&DEVICE_ID.to_be_bytes());
        Ok(())
    }
}

#[test]
fn serializes_register_and_value_most_significant_byte_first() {
    let mut codec = Wm8994::new(Bus::default());
    codec.write_register(0x0210, 0x0083).unwrap();
    assert_eq!(codec.release().last_write, [0x02, 0x10, 0x00, 0x83]);
}

#[test]
fn reads_and_verifies_the_wm8994_device_id() {
    let mut codec = Wm8994::new(Bus::default());
    assert_eq!(codec.verify_device(), Ok(()));
}

struct OtherDevice;

impl CodecBus for OtherDevice {
    type Error = ();

    fn write(&mut self, _address: u8, _bytes: &[u8; 4]) -> Result<(), Self::Error> {
        Err(())
    }

    fn write_read(
        &mut self,
        _address: u8,
        _bytes: &[u8; 2],
        output: &mut [u8; 2],
    ) -> Result<(), Self::Error> {
        *output = [0x12, 0x34];
        Ok(())
    }
}

#[test]
fn rejects_an_unexpected_device_and_reports_bus_errors() {
    let mut codec = Wm8994::new(OtherDevice);
    assert_eq!(codec.read_register(0), Ok(0x1234));
    assert_eq!(codec.verify_device(), Err(Error::UnexpectedDevice(0x1234)));
    assert_eq!(codec.write_register(1, 2), Err(Error::Bus(())));
    assert_eq!(codec.set_muted(false), Err(Error::Bus(())));
}

#[test]
fn output_volume_uses_a_linear_scale_capped_at_100() {
    assert_eq!(output_volume_value(0), 0x0140);
    assert_eq!(output_volume_value(50), 0x0140 | 32);
    assert_eq!(output_volume_value(100), 0x0140 | 63);
    assert_eq!(output_volume_value(255), 0x0140 | 63);
}

#[test]
fn headphone_configuration_ends_muted_at_the_requested_volume() {
    let steps = headphone_playback_steps(80);
    assert_eq!(steps.len(), 28);
    assert_eq!(
        steps[24],
        CodecStep::Write {
            register: 0x001c,
            value: output_volume_value(80)
        }
    );
    assert_eq!(
        steps[27],
        CodecStep::Write {
            register: 0x0422,
            value: 0x0200
        }
    );
}

#[test]
fn set_output_volume_writes_both_channels() {
    let mut codec = Wm8994::new(Bus::default());
    codec.set_output_volume(100).unwrap();
    let bus = codec.release();
    assert_eq!(bus.writes, 2);
    assert_eq!(bus.last_write, [0x00, 0x1d, 0x01, 0x7f]);
}

struct Hardware {
    buttons: [bool; 7],
    knob: (bool, bool),
}

impl Hardware {
    fn new() -> Self {
        Self {
            buttons: [false; 7],
            knob: (false, false),
        }
    }

    fn set_button(&mut self, button: Button, pressed: bool) {
        self.buttons[button.index()] = pressed;
    }
}

impl GpioHardware for Hardware {
    type Error = ();

    fn button_is_pressed(&mut self, button: Button) -> Result<bool, Self::Error> {
        Ok(self.buttons[button.index()])
    }

    fn knob_state(&mut self) -> Result<(bool, bool), Self::Error> {
        Ok(self.knob)
    }
}

fn scanner() -> GpioScanner {
    GpioScanner::new(
        GpioConfig {
            debounce_ticks: 2,
            reset_hold_ticks: 3,
            reset_button: Button::Select,
        },
        (false, false),
    )
}

#[test]
fn debounces_each_button_press() {
    for (button, expected) in [
        (Button::Up, GpioEvent::Up),
        (Button::Down, GpioEvent::Down),
        (Button::In, GpioEvent::In),
        (Button::Out, GpioEvent::Out),
        (Button::Select, GpioEvent::Select),
        (Button::On, GpioEvent::On),
        (Button::Off, GpioEvent::Off),
    ] {
        let mut scanner = scanner();
        let mut hardware = Hardware::new();
        hardware.set_button(button, true);
        assert_eq!(scanner.poll(&mut hardware), Ok(None));
        assert_eq!(scanner.poll(&mut hardware), Ok(Some(expected)));
    }
}

#[test]
fn held_select_emits_one_reset_until_released() {
    let mut scanner = scanner();
    let mut hardware = Hardware::new();
    hardware.set_button(Button::Select, true);

    assert_eq!(scanner.poll(&mut hardware), Ok(None));
    assert_eq!(scanner.poll(&mut hardware), Ok(Some(GpioEvent::Select)));
    assert_eq!(scanner.poll(&mut hardware), Ok(None));
    assert_eq!(scanner.poll(&mut hardware), Ok(Some(GpioEvent::Reset)));
    assert_eq!(scanner.poll(&mut hardware), Ok(None));
}

#[test]
fn decodes_both_knob_directions() {
    let mut scanner = scanner();
    let mut hardware = Hardware::new();

    for state in [(true, false), (true, true), (false, true)] {
        hardware.knob = state;
        assert_eq!(scanner.poll(&mut hardware), Ok(None));
    }
    hardware.knob = (false, false);
    assert_eq!(
        scanner.poll(&mut hardware),
        Ok(Some(GpioEvent::KnobIncrement(1)))
    );

    for state in [(false, true), (true, true), (true, false)] {
        hardware.knob = state;
        assert_eq!(scanner.poll(&mut hardware), Ok(None));
    }
    hardware.knob = (false, false);
    assert_eq!(
        scanner.poll(&mut hardware),
        Ok(Some(GpioEvent::KnobIncrement(-1)))
    );
}

#[test]
fn a_bounce_shorter_than_the_debounce_is_ignored() {
    let mut scanner = GpioScanner::new(
        GpioConfig {
            debounce_ticks: 3,
            reset_hold_ticks: 100,
            reset_button: Button::Select,
        },
        (false, false),
    );
    let mut hardware = Hardware::new();
    hardware.set_button(Button::Up, true);
    assert_eq!(scanner.poll(&mut hardware), Ok(None));
    assert_eq!(scanner.poll(&mut hardware), Ok(None));
    hardware.set_button(Button::Up, false);
    assert_eq!(scanner.poll(&mut hardware), Ok(None));
    hardware.set_button(Button::Up, true);
    assert_eq!(scanner.poll(&mut hardware), Ok(None));
    assert_eq!(scanner.poll(&mut hardware), Ok(None));
    assert_eq!(scanner.poll(&mut hardware), Ok(Some(GpioEvent::Up)));
}

#[test]
fn reset_can_be_sent_again_after_release() {
    let mut scanner = scanner();
    let mut hardware = Hardware::new();
    hardware.set_button(Button::Select, true);
    for _ in 0..2 {
        scanner.poll(&mut hardware).unwrap();
    }
    for _ in 0..5 {
        scanner.poll(&mut hardware).unwrap();
    }
    hardware.set_button(Button::Select, false);
    for _ in 0..3 {
        assert_eq!(scanner.poll(&mut hardware), Ok(None));
    }
    hardware.set_button(Button::Select, true);
    assert_eq!(scanner.poll(&mut hardware), Ok(None));
    assert_eq!(scanner.poll(&mut hardware), Ok(Some(GpioEvent::Select)));
    assert_eq!(scanner.poll(&mut hardware), Ok(None));
    assert_eq!(scanner.poll(&mut hardware), Ok(Some(GpioEvent::Reset)));
}

#[test]
fn simultaneous_presses_come_out_in_scan_order() {
    let mut scanner = scanner();
    let mut hardware = Hardware::new();
    hardware.set_button(Button::Off, true);
    hardware.set_button(Button::Up, true);
    hardware.set_button(Button::In, true);
    assert_eq!(scanner.poll(&mut hardware), Ok(None));
    assert_eq!(scanner.poll(&mut hardware), Ok(Some(GpioEvent::Up)));
    assert_eq!(scanner.next_event(), Some(GpioEvent::In));
    assert_eq!(scanner.next_event(), Some(GpioEvent::Off));
    assert_eq!(scanner.next_event(), None);
}

struct Faulty;

impl GpioHardware for Faulty {
    type Error = &'static str;

    fn button_is_pressed(&mut self, _button: Button) -> Result<bool, Self::Error> {
        Err("bus fault")
    }

    fn knob_state(&mut self) -> Result<(bool, bool), Self::Error> {
        Ok((false, false))
    }
}

#[test]
fn hardware_faults_are_reported() {
    let mut scanner = scanner();
    assert_eq!(
        scanner.poll(&mut Faulty),
        Err(ScanError::Hardware("bus fault"))
    );
}

#[test]
fn a_full_event_queue_is_reported() {
    let mut scanner = GpioScanner::new(
        GpioConfig {
            debounce_ticks: 1,
            reset_hold_ticks: 1_000,
            reset_button: Button::Select,
        },
        (false, false),
    );
    let mut hardware = Hardware::new();
    let mut full = false;
    for _ in 0..40 {
        hardware.knob = (true, false);
        let _ = scanner.poll(&mut hardware);
        hardware.knob = (true, true);
        let _ = scanner.poll(&mut hardware);
        hardware.knob = (false, true);
        let _ = scanner.poll(&mut hardware);
        hardware.knob = (false, false);
        for button in [Button::Up, Button::Down, Button::In, Button::Out, Button::On, Button::Off] {
            hardware.set_button(button, true);
        }
        if scanner.poll(&mut hardware) == Err(ScanError::EventQueueFull) {
            full = true;
            break;
        }
        for button in [Button::Up, Button::Down, Button::In, Button::Out, Button::On, Button::Off] {
            hardware.set_button(button, false);
        }
        let _ = scanner.poll(&mut hardware);
    }
    assert!(full);
}

#[test]
fn default_config_debounces_three_ticks_and_resets_after_a_thousand() {
    let config = GpioConfig::default();
    assert_eq!(config.debounce_ticks, 3);
    assert_eq!(config.reset_hold_ticks, 1_000);
    assert_eq!(config.reset_button, Button::Select);
}

use openrsynth::stm32::audio::CommandQueue;
use openrsynth::stm32::display::{
    Display, DisplayCommand, DisplayItem, DisplayTarget, WindowGui,
};
use openrsynth::stm32::mbed_engine::{respond_to_gpio_event, AudioRequest};
use openrsynth::stm32::midi::{UsbMidiEndpoint, UsbMidiInput};
use openrsynth::music::event::NoteEvent;
use openrsynth::music::note::Note;

#[test]
fn command_queue_is_first_in_first_out_and_bounded() {
    let mut queue: CommandQueue<u8, 3> = CommandQueue::new();
    assert_eq!(queue.pop(), None);
    assert!(queue.push(1).is_ok());
    assert!(queue.push(2).is_ok());
    assert!(queue.push(3).is_ok());
    assert_eq!(queue.push(4), Err(4));
    assert!(queue.is_full());
    assert_eq!(queue.pop(), Some(1));
    assert!(queue.push(5).is_ok());
    assert_eq!(queue.pop(), Some(2));
    assert_eq!(queue.pop(), Some(3));
    assert_eq!(queue.pop(), Some(5));
    assert_eq!(queue.pop(), None);
    assert_eq!(queue.len(), 0);
}

struct Screen {
    draws: usize,
    fail: bool,
}

impl DisplayTarget for Screen {
    type Error = ();

    fn draw(&mut self, _window: &WindowGui) -> Result<(), Self::Error> {
        if self.fail {
            return Err(());
        }
        self.draws += 1;
        Ok(())
    }
}

#[test]
fn display_redraws_only_after_changes() {
    let mut display = Display::new(Screen { draws: 0, fail: false }, WindowGui::default());
    assert_eq!(display.render_if_dirty(), Ok(true));
    assert_eq!(display.render_if_dirty(), Ok(false));
    display.send(DisplayCommand::SetMasterGain(55));
    assert_eq!(display.window().master_gain_percent, 55);
    assert_eq!(display.render_if_dirty(), Ok(true));
    assert_eq!(display.render_if_dirty(), Ok(false));
}

#[test]
fn a_failed_draw_is_retried() {
    let mut display = Display::new(Screen { draws: 0, fail: true }, WindowGui::default());
    assert_eq!(display.render_if_dirty(), Err(()));
    assert_eq!(display.render_if_dirty(), Err(()));
}

#[test]
fn display_items_cycle() {
    assert_eq!(DisplayItem::Instrument.next(), DisplayItem::MasterGain);
    assert_eq!(DisplayItem::MasterGain.next(), DisplayItem::Instrument);
    assert_eq!(DisplayItem::Instrument.previous(), DisplayItem::MasterGain);
    assert_eq!(DisplayItem::Instrument.next().previous(), DisplayItem::Instrument);
}

fn apply(window: &mut WindowGui, commands: &[DisplayCommand]) {
    for command in commands {
        match *command {
            DisplayCommand::Select(item) => window.selected_item = item,
            DisplayCommand::SetEditing(editing) => window.editing = editing,
            DisplayCommand::SetInstrument(index) => window.selected_instrument = index,
            DisplayCommand::SetMasterGain(gain) => window.master_gain_percent = gain,
        }
    }
}

#[test]
fn knob_navigation_edits_instrument_then_gain() {
    let mut window = WindowGui::default();
    let response = respond_to_gpio_event(&window, GpioEvent::In, 2);
    assert_eq!(response.audio, None);
    apply(&mut window, &response.display);
    let response = respond_to_gpio_event(&window, GpioEvent::KnobIncrement(1), 2);
    assert_eq!(response.audio, Some(AudioRequest::SelectInstrument(1)));
    apply(&mut window, &response.display);
    assert_eq!(window.selected_instrument, 1);

    for event in [GpioEvent::Out, GpioEvent::Down, GpioEvent::In] {
        let response = respond_to_gpio_event(&window, event, 2);
        apply(&mut window, &response.display);
    }
    let response = respond_to_gpio_event(&window, GpioEvent::KnobIncrement(15), 2);
    assert_eq!(response.audio, Some(AudioRequest::SetMasterGainPercent(35)));
    apply(&mut window, &response.display);
    assert_eq!(window.master_gain_percent, 35);
}

#[test]
fn power_requests_and_reset_restore_the_window() {
    let mut window = WindowGui::default();
    assert_eq!(
        respond_to_gpio_event(&window, GpioEvent::On, 2).audio,
        Some(AudioRequest::Start)
    );
    assert_eq!(
        respond_to_gpio_event(&window, GpioEvent::Off, 2).audio,
        Some(AudioRequest::Stop)
    );
    for event in [GpioEvent::In, GpioEvent::KnobIncrement(1)] {
        let response = respond_to_gpio_event(&window, event, 2);
        apply(&mut window, &response.display);
    }
    let response = respond_to_gpio_event(&window, GpioEvent::Reset, 2);
    assert_eq!(response.audio, Some(AudioRequest::Reset));
    apply(&mut window, &response.display);
    assert_eq!(window, WindowGui::default());
}

#[test]
fn knob_edits_are_clamped() {
    let mut window = WindowGui::default();
    window.editing = true;
    let response = respond_to_gpio_event(&window, GpioEvent::KnobIncrement(-3), 4);
    assert_eq!(response.audio, Some(AudioRequest::SelectInstrument(0)));
    let response = respond_to_gpio_event(&window, GpioEvent::KnobIncrement(9), 4);
    assert_eq!(response.audio, Some(AudioRequest::SelectInstrument(3)));
    window.selected_item = DisplayItem::MasterGain;
    let response = respond_to_gpio_event(&window, GpioEvent::KnobIncrement(500), 4);
    assert_eq!(response.audio, Some(AudioRequest::SetMasterGainPercent(100)));
    let response = respond_to_gpio_event(&window, GpioEvent::KnobIncrement(-500), 4);
    assert_eq!(response.audio, Some(AudioRequest::SetMasterGainPercent(0)));
    window.editing = false;
    let response = respond_to_gpio_event(&window, GpioEvent::KnobIncrement(5), 4);
    assert_eq!(response.audio, None);
    assert!(response.display.is_empty());
    window.editing = true;
    let response = respond_to_gpio_event(&window, GpioEvent::Up, 4);
    assert!(response.display.is_empty());
}

struct Endpoint {
    packets: Vec<[u8; 4]>,
}

impl UsbMidiEndpoint for Endpoint {
    type Error = ();

    fn read_event_packet(&mut self, packet: &mut [u8; 4]) -> Result<bool, Self::Error> {
        match self.packets.pop() {
            Some(bytes) => {
                *packet = bytes;
                Ok(true)
            }
            None => Ok(false),
        }
    }
}

#[test]
fn usb_midi_input_decodes_packets() {
    let mut input = UsbMidiInput::new(Endpoint {
        packets: vec![[0x0b, 0xb0, 1, 2], [0x09, 0x90, 69, 100]],
    });
    assert_eq!(
        input.poll(),
        Ok(Some(NoteEvent::NoteOn {
            note: Note::A4(),
            velocity: 100
        }))
    );
    assert_eq!(input.poll(), Ok(None));
    assert_eq!(input.poll(), Ok(None));
    assert!(input.into_inner().packets.is_empty());
}

#[test]
fn device_id_check_accepts_only_the_wm8994() {
    assert_eq!(check_device_id::<()>(0x8994), Ok(()));
    assert_eq!(
        check_device_id::<()>(0x8995),
        Err(Error::UnexpectedDevice(0x8995))
    );
}

#[derive(Default)]
struct Recorder {
    writes: Vec<[u8; 4]>,
    reads: Vec<[u8; 2]>,
}

impl CodecBus for Recorder {
    type Error = Infallible;

    fn write(&mut self, address: u8, bytes: &[u8; 4]) -> Result<(), Self::Error> {
        assert_eq!(address, I2C_ADDRESS);
        self.writes.push(*bytes);
        Ok(())
    }

    fn write_read(
        &mut self,
        address: u8,
        bytes: &[u8; 2],
        output: &mut [u8; 2],
    ) -> Result<(), Self::Error> {
        assert_eq!(address, I2C_ADDRESS);
        self.reads.push(*bytes);
        *output = DEVICE_ID.to_be_bytes();
        Ok(())
    }
}

#[derive(Default)]
struct Waits(Vec<u32>);

impl Delay for Waits {
    fn delay_ms(&mut self, ms: u32) {
        self.0.push(ms);
    }
}

#[test]
fn headphone_configuration_resets_checks_and_writes_every_step() {
    let mut codec = Wm8994::new(Recorder::default());
    let mut waits = Waits::default();
    codec.configure_headphone_playback(&mut waits, 50).unwrap();
    let bus = codec.release();
    assert_eq!(waits.0, vec![5, 50, 325]);
    assert_eq!(bus.reads, vec![[0x00, 0x00]]);
    assert_eq!(bus.writes.len(), 27);
    assert_eq!(bus.writes[0], [0x00, 0x00, 0x00, 0x00]);
    assert_eq!(bus.writes[1], [0x01, 0x02, 0x00, 0x03]);
    assert_eq!(bus.writes[23], [0x00, 0x1c, 0x01, 0x60]);
    assert_eq!(bus.writes[24], [0x00, 0x1d, 0x01, 0x60]);
    assert_eq!(bus.writes[25], [0x04, 0x20, 0x02, 0x00]);
    assert_eq!(bus.writes[26], [0x04, 0x22, 0x02, 0x00]);
}

#[test]
fn power_down_mutes_clears_and_resets() {
    let mut codec = Wm8994::new(Recorder::default());
    codec.power_down().unwrap();
    let bus = codec.release();
    assert_eq!(
        bus.writes,
        vec![
            [0x04, 0x20, 0x02, 0x00],
            [0x04, 0x22, 0x02, 0x00],
            [0x00, 0x2d, 0x00, 0x00],
            [0x00, 0x2e, 0x00, 0x00],
            [0x00, 0x05, 0x00, 0x00],
            [0x00, 0x00, 0x00, 0x00],
        ]
    );
}

#[test]
fn a_queue_without_slots_refuses_every_command() {
    let mut queue: CommandQueue<u8, 0> = CommandQueue::new();
    assert_eq!(queue.push(7), Err(7));
    assert_eq!(queue.pop(), None);
    assert!(queue.is_full());
    assert_eq!(queue.len(), 0);
}

/// A bus whose writes fail from the `fail_from`-th on, counting the writes.
struct FlakyBus {
    writes: usize,
    fail_from: usize,
}

impl CodecBus for FlakyBus {
    type Error = usize;

    fn write(&mut self, _address: u8, _bytes: &[u8; 4]) -> Result<(), Self::Error> {
        self.writes += 1;
        if self.writes >= self.fail_from {
            Err(self.writes)
        } else {
            Ok(())
        }
    }

    fn write_read(
        &mut self,
        _address: u8,
        _bytes: &[u8; 2],
        output: &mut [u8; 2],
    ) -> Result<(), Self::Error> {
        *output = DEVICE_ID.to_be_bytes();
        Ok(())
    }
}

#[test]
fn writing_stops_at_the_first_failed_write() {
    let mut codec = Wm8994::new(FlakyBus { writes: 0, fail_from: 1 });
    assert_eq!(codec.set_output_volume(50), Err(Error::Bus(1)));
    assert_eq!(codec.release().writes, 1);

    let mut codec = Wm8994::new(FlakyBus { writes: 0, fail_from: 3 });
    assert_eq!(codec.power_down(), Err(Error::Bus(3)));
    assert_eq!(codec.release().writes, 3);
}
