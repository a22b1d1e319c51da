//! How the board application answers control-panel events.
use vstd::prelude::*;
use crate::stm32::control::GpioEvent;
use crate::stm32::display::{DisplayCommand, DisplayItem, WindowGui, apply_display_command, default_window};

verus! {

#[derive(Debug, Clone, Copy, PartialEq, Eq)]
pub enum InputError<E> {
    AudioQueueFull,
    Audio(E),
}

#[derive(Debug, Clone, Copy, PartialEq, Eq)]
pub enum MidiError<E> {
    Usb(E),
    AudioQueueFull,
}

/// What a control-panel event asks of the audio side.
#[derive(Debug, Clone, Copy, PartialEq, Eq, Structural)]
pub enum AudioRequest {
    /// Start the audio output.
    Start,
    /// Stop the audio output.
    Stop,
    /// Queue a reset of the audio settings.
    Reset,
    /// Queue the selection of an instrument.
    SelectInstrument(usize),
    /// Queue a master gain, in percent.
    SetMasterGainPercent(u8),
}

/// The answer to a control-panel event: first the audio request, if any;
/// then, once it succeeded, the display commands in order.
pub struct GpioResponse {
    pub audio: Option<AudioRequest>,
    pub display: Vec<DisplayCommand>,
}

/// The last instrument index for `count` instruments, as a 32-bit value the
/// way the knob arithmetic computes it.
pub open spec fn last_instrument(count: usize) -> i32 {
    (if count == 0 {
        0
    } else {
        count - 1
    }) as i32
}

/// The inputs on which the knob arithmetic stays within its integer types.
pub open spec fn knob_in_range(window: WindowGui, delta: i16, instrument_count: usize) -> bool {
    match window.selected_item {
        DisplayItem::Instrument => {
            &&& last_instrument(instrument_count) >= 0
            &&& i32::MIN <= (window.selected_instrument as i32) + delta <= i32::MAX
        },
        DisplayItem::MasterGain => window.master_gain_percent + delta <= i16::MAX,
    }
}

pub open spec fn clamp_int(x: int, low: int, high: int) -> int {
    if x < low {
        low
    } else if x > high {
        high
    } else {
        x
    }
}

/// A knob turn while editing: the selected instrument moves by `delta`
/// within the instrument list, or the master gain moves by `delta` percent
/// within 0–100.
pub open spec fn knob_response(window: WindowGui, delta: i16, instrument_count: usize) -> (
    Option<AudioRequest>,
    Seq<DisplayCommand>,
) {
    match window.selected_item {
        DisplayItem::Instrument => {
            let selected = clamp_int(
                (window.selected_instrument as i32) + delta,
                0,
                last_instrument(instrument_count) as int,
            ) as usize;
            (
                Some(AudioRequest::SelectInstrument(selected)),
                seq![DisplayCommand::SetInstrument(selected)],
            )
        },
        DisplayItem::MasterGain => {
            let gain = clamp_int(window.master_gain_percent + delta, 0, 100) as u8;
            (Some(AudioRequest::SetMasterGainPercent(gain)), seq![DisplayCommand::SetMasterGain(gain)])
        },
    }
}

/// The answer to each control-panel event, given the window shown and the
/// number of instruments. Up and Down move the selection unless a value is
/// being edited; In and Out enter and leave editing; Select toggles it; On
/// and Off start and stop the audio; Reset queues an audio reset and returns
/// the window to its start-up state; the knob edits the selected value while
/// editing and is ignored otherwise.
pub open spec fn gpio_response(window: WindowGui, event: GpioEvent, instrument_count: usize) -> (
    Option<AudioRequest>,
    Seq<DisplayCommand>,
) {
    match event {
        GpioEvent::Up => if window.editing {
            (None, Seq::empty())
        } else {
            (None, seq![DisplayCommand::Select(window.selected_item.spec_previous())])
        },
        GpioEvent::Down => if window.editing {
            (None, Seq::empty())
        } else {
            (None, seq![DisplayCommand::Select(window.selected_item.spec_next())])
        },
        GpioEvent::In => (None, seq![DisplayCommand::SetEditing(true)]),
        GpioEvent::Out => (None, seq![DisplayCommand::SetEditing(false)]),
        GpioEvent::Select => (None, seq![DisplayCommand::SetEditing(!window.editing)]),
        GpioEvent::On => (Some(AudioRequest::Start), Seq::empty()),
        GpioEvent::Off => (Some(AudioRequest::Stop), Seq::empty()),
        GpioEvent::Reset => (
            Some(AudioRequest::Reset),
            seq![
                DisplayCommand::Select(DisplayItem::Instrument),
                DisplayCommand::SetEditing(false),
                DisplayCommand::SetInstrument(0),
                DisplayCommand::SetMasterGain(20),
            ],
        ),
        GpioEvent::KnobIncrement(delta) => if window.editing {
            knob_response(window, delta, instrument_count)
        } else {
            (None, Seq::empty())
        },
    }
}

/// The inputs on which answering `event` stays within the integer types.
pub open spec fn gpio_event_in_range(window: WindowGui, event: GpioEvent, instrument_count: usize) -> bool {
    match event {
        GpioEvent::KnobIncrement(delta) => window.editing ==> knob_in_range(
            window,
            delta,
            instrument_count,
        ),
        _ => true,
    }
}

/// The window after a sequence of display commands.
pub open spec fn apply_display_commands(window: WindowGui, commands: Seq<DisplayCommand>) -> WindowGui
    decreases commands.len(),
{
    if commands.len() == 0 {
        window
    } else {
        apply_display_command(apply_display_commands(window, commands.drop_last()), commands.last())
    }
}

/// Answers a control-panel event.
pub fn respond_to_gpio_event(window: &WindowGui, event: GpioEvent, instrument_count: usize) -> (r:
    GpioResponse)
    requires
        gpio_event_in_range(*window, event, instrument_count),
    ensures
        (r.audio, r.display@) == gpio_response(*window, event, instrument_count),
{
    match event {
        GpioEvent::Up => {
            if window.editing {
                GpioResponse { audio: None, display: Vec::new() }
            } else {
                GpioResponse {
                    audio: None,
                    display: vec![DisplayCommand::Select(window.selected_item.previous())],
                }
            }
        },
        GpioEvent::Down => {
            if window.editing {
                GpioResponse { audio: None, display: Vec::new() }
            } else {
                GpioResponse {
                    audio: None,
                    display: vec![DisplayCommand::Select(window.selected_item.next())],
                }
            }
        },
        GpioEvent::In => GpioResponse {
            audio: None,
            display: vec![DisplayCommand::SetEditing(true)],
        },
        GpioEvent::Out => GpioResponse {
            audio: None,
            display: vec![DisplayCommand::SetEditing(false)],
        },
        GpioEvent::Select => GpioResponse {
            audio: None,
            display: vec![DisplayCommand::SetEditing(!window.editing)],
        },
        GpioEvent::On => GpioResponse { audio: Some(AudioRequest::Start), display: Vec::new() },
        GpioEvent::Off => GpioResponse { audio: Some(AudioRequest::Stop), display: Vec::new() },
        GpioEvent::Reset => GpioResponse {
            audio: Some(AudioRequest::Reset),
            display: vec![
                DisplayCommand::Select(DisplayItem::Instrument),
                DisplayCommand::SetEditing(false),
                DisplayCommand::SetInstrument(0),
                DisplayCommand::SetMasterGain(20),
            ],
        },
        GpioEvent::KnobIncrement(delta) => {
            if window.editing {
                respond_to_knob(window, delta, instrument_count)
            } else {
                GpioResponse { audio: None, display: Vec::new() }
            }
        },
    }
}

/// Answers a knob turn while editing.
fn respond_to_knob(window: &WindowGui, delta: i16, instrument_count: usize) -> (r: GpioResponse)
    requires
        knob_in_range(*window, delta, instrument_count),
    ensures
        (r.audio, r.display@) == knob_response(*window, delta, instrument_count),
{
    match window.selected_item {
        DisplayItem::Instrument => {
            let current = window.selected_instrument as i32;
            let last = instrument_count.saturating_sub(1) as i32;
            let moved = current + delta as i32;
            let clamped = if moved < 0 {
                0
            } else if moved > last {
                last
            } else {
                moved
            };
            let selected = clamped as usize;
            GpioResponse {
                audio: Some(AudioRequest::SelectInstrument(selected)),
                display: vec![DisplayCommand::SetInstrument(selected)],
            }
        },
        DisplayItem::MasterGain => {
            let current = window.master_gain_percent as i16;
            let moved = current + delta;
            let clamped: i16 = if moved < 0 {
                0
            } else if moved > 100 {
                100
            } else {
                moved
            };
            let gain = clamped as u8;
            GpioResponse {
                audio: Some(AudioRequest::SetMasterGainPercent(gain)),
                display: vec![DisplayCommand::SetMasterGain(gain)],
            }
        },
    }
}

/// A reset brings the window back to its start-up state, whatever it was.
pub proof fn lemma_reset_restores_default_window(window: WindowGui, instrument_count: usize)
    ensures
        apply_display_commands(window, gpio_response(window, GpioEvent::Reset, instrument_count).1)
            == default_window(),
{
    let cmds = gpio_response(window, GpioEvent::Reset, instrument_count).1;
    let c3 = cmds.drop_last();
    let c2 = c3.drop_last();
    let c1 = c2.drop_last();
    assert(c1.drop_last() =~= Seq::<DisplayCommand>::empty());
    assert(c1.len() == 1 && c1.last() == DisplayCommand::Select(DisplayItem::Instrument));
    assert(c2.last() == DisplayCommand::SetEditing(false));
    assert(c3.last() == DisplayCommand::SetInstrument(0));
    assert(cmds.last() == DisplayCommand::SetMasterGain(20));
    assert(apply_display_commands(window, c1.drop_last()) == window);
    let w1 = apply_display_commands(window, c1);
    let w2 = apply_display_commands(window, c2);
    let w3 = apply_display_commands(window, c3);
    assert(w1 == apply_display_command(window, DisplayCommand::Select(DisplayItem::Instrument)));
    assert(w2 == apply_display_command(w1, DisplayCommand::SetEditing(false)));
    assert(w3 == apply_display_command(w2, DisplayCommand::SetInstrument(0)));
}

/// Knob edits stay in range: the selected instrument is never past the last
/// instrument and the master gain never above 100 percent.
pub proof fn lemma_knob_edits_stay_in_range(window: WindowGui, delta: i16, instrument_count: usize)
    requires
        window.editing,
        knob_in_range(window, delta, instrument_count),
        instrument_count > 0,
    ensures
        ({
            let after = apply_display_commands(
                window,
                gpio_response(window, GpioEvent::KnobIncrement(delta), instrument_count).1,
            );
            &&& window.selected_item == DisplayItem::Instrument ==> after.selected_instrument
                < instrument_count
            &&& window.selected_item == DisplayItem::MasterGain ==> after.master_gain_percent <= 100
        }),
{
    let cmds = gpio_response(window, GpioEvent::KnobIncrement(delta), instrument_count).1;
    assert(cmds.drop_last() =~= Seq::<DisplayCommand>::empty());
}

/// What the editing and navigation events do to the window shown: In
/// enters editing, Out leaves it, Select toggles it, each changing nothing
/// else; outside editing, Up and Down move the selection to the other item
/// and change nothing else; On and Off start and stop the audio and leave
/// the window as it is.
pub proof fn lemma_event_effects_on_window(window: WindowGui, instrument_count: usize)
    ensures
        ({
            let after_in = apply_display_commands(
                window,
                gpio_response(window, GpioEvent::In, instrument_count).1,
            );
            &&& after_in.editing
            &&& after_in.selected_item == window.selected_item
            &&& after_in.selected_instrument == window.selected_instrument
            &&& after_in.master_gain_percent == window.master_gain_percent
        }),
        ({
            let after_out = apply_display_commands(
                window,
                gpio_response(window, GpioEvent::Out, instrument_count).1,
            );
            &&& !after_out.editing
            &&& after_out.selected_item == window.selected_item
            &&& after_out.selected_instrument == window.selected_instrument
            &&& after_out.master_gain_percent == window.master_gain_percent
        }),
        ({
            let after_select = apply_display_commands(
                window,
                gpio_response(window, GpioEvent::Select, instrument_count).1,
            );
            &&& after_select.editing == !window.editing
            &&& after_select.selected_item == window.selected_item
            &&& after_select.selected_instrument == window.selected_instrument
            &&& after_select.master_gain_percent == window.master_gain_percent
        }),
        !window.editing ==> ({
            let after_up = apply_display_commands(
                window,
                gpio_response(window, GpioEvent::Up, instrument_count).1,
            );
            let after_down = apply_display_commands(
                window,
                gpio_response(window, GpioEvent::Down, instrument_count).1,
            );
            &&& after_up.selected_item != window.selected_item
            &&& after_down.selected_item != window.selected_item
            &&& after_up.editing == window.editing && after_down.editing == window.editing
            &&& after_up.selected_instrument == window.selected_instrument
            &&& after_down.selected_instrument == window.selected_instrument
            &&& after_up.master_gain_percent == window.master_gain_percent
            &&& after_down.master_gain_percent == window.master_gain_percent
        }),
        gpio_response(window, GpioEvent::On, instrument_count) == (
            Some(AudioRequest::Start),
            Seq::<DisplayCommand>::empty(),
        ),
        gpio_response(window, GpioEvent::Off, instrument_count) == (
            Some(AudioRequest::Stop),
            Seq::<DisplayCommand>::empty(),
        ),
{
    lemma_single_command(window, DisplayCommand::SetEditing(true));
    lemma_single_command(window, DisplayCommand::SetEditing(false));
    lemma_single_command(window, DisplayCommand::SetEditing(!window.editing));
    lemma_single_command(window, DisplayCommand::Select(window.selected_item.spec_previous()));
    lemma_single_command(window, DisplayCommand::Select(window.selected_item.spec_next()));
}

/// A single display command does what `apply_display_command` says.
proof fn lemma_single_command(window: WindowGui, command: DisplayCommand)
    ensures
        apply_display_commands(window, seq![command]) == apply_display_command(window, command),
{
    let commands = seq![command];
    assert(commands.drop_last() =~= Seq::<DisplayCommand>::empty());
    assert(apply_display_commands(window, Seq::<DisplayCommand>::empty()) == window);
    assert(commands.last() == command);
}

/// While a value is being edited, Up and Down leave the window unchanged.
pub proof fn lemma_navigation_locked_while_editing(window: WindowGui, instrument_count: usize)
    requires
        window.editing,
    ensures
        gpio_response(window, GpioEvent::Up, instrument_count) == (
            None::<AudioRequest>,
            Seq::<DisplayCommand>::empty(),
        ),
        gpio_response(window, GpioEvent::Down, instrument_count) == (
            None::<AudioRequest>,
            Seq::<DisplayCommand>::empty(),
        ),
{
}

} // verus!
