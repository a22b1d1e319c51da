//! Embedded control-panel event detection and debouncing.
use vstd::prelude::*;
use crate::stm32::audio::CommandQueue;

verus! {

/// Logical buttons exposed by the embedded control panel.
#[derive(Debug, Clone, Copy, PartialEq, Eq, Structural)]
pub enum Button {
    Up,
    Down,
    In,
    Out,
    Select,
    On,
    Off,
}

/// Number of buttons on the control panel.
pub const BUTTON_COUNT: usize = 7;

/// Number of events the scanner can hold before `poll` drains them.
pub const EVENT_QUEUE_CAPACITY: usize = 16;

/// Events produced by the board's buttons and rotary encoder.
#[derive(Debug, Clone, Copy, PartialEq, Eq, Structural)]
pub enum GpioEvent {
    Up,
    Down,
    In,
    Out,
    Select,
    On,
    Off,
    Reset,
    KnobIncrement(i16),
}

impl Button {
    /// Position of the button in scan order.
    pub open spec fn spec_index(self) -> usize {
        match self {
            Button::Up => 0,
            Button::Down => 1,
            Button::In => 2,
            Button::Out => 3,
            Button::Select => 4,
            Button::On => 5,
            Button::Off => 6,
        }
    }

    /// The button scanned at position `index`.
    pub open spec fn spec_at(index: int) -> Button {
        if index == 0 {
            Button::Up
        } else if index == 1 {
            Button::Down
        } else if index == 2 {
            Button::In
        } else if index == 3 {
            Button::Out
        } else if index == 4 {
            Button::Select
        } else if index == 5 {
            Button::On
        } else {
            Button::Off
        }
    }

    /// The event that a debounced press of the button produces.
    pub open spec fn spec_event(self) -> GpioEvent {
        match self {
            Button::Up => GpioEvent::Up,
            Button::Down => GpioEvent::Down,
            Button::In => GpioEvent::In,
            Button::Out => GpioEvent::Out,
            Button::Select => GpioEvent::Select,
            Button::On => GpioEvent::On,
            Button::Off => GpioEvent::Off,
        }
    }

    pub fn index(self) -> (r: usize)
        ensures
            r == self.spec_index(),
            r < BUTTON_COUNT,
            Button::spec_at(r as int) == self,
    {
        match self {
            Self::Up => 0,
            Self::Down => 1,
            Self::In => 2,
            Self::Out => 3,
            Self::Select => 4,
            Self::On => 5,
            Self::Off => 6,
        }
    }

    fn at(index: usize) -> (r: Button)
        requires
            index < BUTTON_COUNT,
        ensures
            r == Button::spec_at(index as int),
            r.spec_index() == index,
    {
        match index {
            0 => Self::Up,
            1 => Self::Down,
            2 => Self::In,
            3 => Self::Out,
            4 => Self::Select,
            5 => Self::On,
            _ => Self::Off,
        }
    }

    fn event(self) -> (r: GpioEvent)
        ensures
            r == self.spec_event(),
    {
        match self {
            Self::Up => GpioEvent::Up,
            Self::Down => GpioEvent::Down,
            Self::In => GpioEvent::In,
            Self::Out => GpioEvent::Out,
            Self::Select => GpioEvent::Select,
            Self::On => GpioEvent::On,
            Self::Off => GpioEvent::Off,
        }
    }
}

/// Electrical GPIO boundary. Implementations translate active-low or
/// active-high pins into logical pressed states.
pub trait GpioHardware {
    type Error;

    fn button_is_pressed(&mut self, button: Button) -> Result<bool, Self::Error>;

    /// Returns the current quadrature encoder A/B levels.
    fn knob_state(&mut self) -> Result<(bool, bool), Self::Error>;
}

#[derive(Debug, Clone, Copy, PartialEq, Eq)]
pub struct GpioConfig {
    /// Number of identical samples required before accepting a transition.
    pub debounce_ticks: u16,
    /// Number of stable pressed samples required to emit Reset.
    pub reset_hold_ticks: u32,
    /// Button whose long press triggers Reset.
    pub reset_button: Button,
}

impl Default for GpioConfig {
    fn default() -> (r: Self)
        ensures
            r.debounce_ticks == 3,
            r.reset_hold_ticks == 1_000,
            r.reset_button == Button::Select,
    {
        Self { debounce_ticks: 3, reset_hold_ticks: 1_000, reset_button: Button::Select }
    }
}

#[derive(Debug, Clone, Copy, PartialEq, Eq)]
pub enum ScanError<E> {
    Hardware(E),
    EventQueueFull,
}

/// Debouncing state of one button.
#[derive(Debug, Clone, Copy)]
pub struct ButtonState {
    pub raw_pressed: bool,
    pub stable_pressed: bool,
    pub identical_samples: u16,
    pub held_ticks: u32,
    pub reset_sent: bool,
}

/// The state of a button that has never been pressed.
pub open spec fn released_button() -> ButtonState {
    ButtonState {
        raw_pressed: false,
        stable_pressed: false,
        identical_samples: 0,
        held_ticks: 0,
        reset_sent: false,
    }
}

impl ButtonState {
    fn new() -> (r: Self)
        ensures
            r == released_button(),
    {
        Self {
            raw_pressed: false,
            stable_pressed: false,
            identical_samples: 0,
            held_ticks: 0,
            reset_sent: false,
        }
    }
}

pub open spec fn saturating_inc_u16(x: u16) -> u16 {
    if x == u16::MAX {
        x
    } else {
        (x + 1) as u16
    }
}

pub open spec fn saturating_inc_u32(x: u32) -> u32 {
    if x == u32::MAX {
        x
    } else {
        (x + 1) as u32
    }
}

/// One sample of one button: the new state, whether a debounced press is
/// reported, and whether a long-press Reset is reported.
///
/// The raw level must be seen `debounce_ticks` times in a row before it
/// becomes the stable level; a change to pressed is reported as a press.
/// While stably pressed, the reset button reports Reset once when it has been
/// held `reset_hold_ticks` samples, and not again until it is released.
pub open spec fn button_update(
    state: ButtonState,
    pressed: bool,
    config: GpioConfig,
    is_reset_button: bool,
) -> (ButtonState, bool, bool) {
    let s1 = if pressed == state.raw_pressed {
        ButtonState { identical_samples: saturating_inc_u16(state.identical_samples), ..state }
    } else {
        ButtonState { raw_pressed: pressed, identical_samples: 1, ..state }
    };
    let accept = s1.raw_pressed != s1.stable_pressed && s1.identical_samples
        >= config.debounce_ticks;
    let s2 = if accept {
        ButtonState { stable_pressed: s1.raw_pressed, held_ticks: 0, reset_sent: false, ..s1 }
    } else {
        s1
    };
    let press_event = accept && s2.stable_pressed;
    if s2.stable_pressed {
        let s3 = ButtonState { held_ticks: saturating_inc_u32(s2.held_ticks), ..s2 };
        let reset = is_reset_button && !s3.reset_sent && s3.held_ticks >= config.reset_hold_ticks;
        let s4 = if reset {
            ButtonState { reset_sent: true, ..s3 }
        } else {
            s3
        };
        (s4, press_event, reset)
    } else {
        (s2, press_event, false)
    }
}

/// The state of one button after it has been sampled pressed `n` times.
pub open spec fn held_for(state: ButtonState, config: GpioConfig, is_reset_button: bool, n: nat) -> ButtonState
    decreases n,
{
    if n == 0 {
        state
    } else {
        button_update(held_for(state, config, is_reset_button, (n - 1) as nat), true, config, is_reset_button).0
    }
}

/// Debouncing: a released button that is then held pressed is reported
/// pressed exactly at its `debounce_ticks`-th pressed sample, and not before.
pub proof fn lemma_press_reported_after_debounce(
    state: ButtonState,
    config: GpioConfig,
    is_reset_button: bool,
    k: nat,
)
    requires
        !state.raw_pressed,
        !state.stable_pressed,
        1 <= k <= config.debounce_ticks,
    ensures
        held_for(state, config, is_reset_button, (k - 1) as nat).stable_pressed == false,
        button_update(held_for(state, config, is_reset_button, (k - 1) as nat), true, config, is_reset_button).1
            == (k == config.debounce_ticks),
        held_for(state, config, is_reset_button, k).raw_pressed,
        held_for(state, config, is_reset_button, k).identical_samples == k,
        held_for(state, config, is_reset_button, k).stable_pressed == (k == config.debounce_ticks),
    decreases k,
{
    if k > 1 {
        lemma_press_reported_after_debounce(state, config, is_reset_button, (k - 1) as nat);
    }
}

/// Long press: once the reset button has reported Reset, holding it further
/// reports nothing, neither another Reset nor a press, for any number of
/// samples, until it is released.
pub proof fn lemma_reset_reported_once_per_hold(
    state: ButtonState,
    config: GpioConfig,
    is_reset_button: bool,
    n: nat,
)
    requires
        state.raw_pressed,
        state.stable_pressed,
        state.reset_sent,
    ensures
        held_for(state, config, is_reset_button, n).raw_pressed,
        held_for(state, config, is_reset_button, n).stable_pressed,
        held_for(state, config, is_reset_button, n).reset_sent,
        !button_update(held_for(state, config, is_reset_button, n), true, config, is_reset_button).1,
        !button_update(held_for(state, config, is_reset_button, n), true, config, is_reset_button).2,
    decreases n,
{
    if n > 0 {
        lemma_reset_reported_once_per_hold(state, config, is_reset_button, (n - 1) as nat);
    }
}

/// Long press: the reset button, stably pressed without a Reset reported yet,
/// reports Reset at the sample that brings its held count to
/// `reset_hold_ticks`.
pub proof fn lemma_reset_reported_when_held_long_enough(state: ButtonState, config: GpioConfig)
    requires
        state.raw_pressed,
        state.stable_pressed,
        !state.reset_sent,
        state.held_ticks + 1 == config.reset_hold_ticks,
    ensures
        button_update(state, true, config, true).2,
        button_update(state, true, config, true).0.reset_sent,
{
}

/// The encoder code that follows `code` when the knob turns one quarter step
/// in the positive direction (00, 10, 11, 01, 00, ...).
pub open spec fn clockwise_next(code: u8) -> u8 {
    if code == 0 {
        2
    } else if code == 2 {
        3
    } else if code == 3 {
        1
    } else {
        0
    }
}

/// Quadrature decoding: a quarter step in the positive direction adds one
/// quarter, the reverse step removes one, and a move across two codes adds
/// nothing.
pub proof fn lemma_quadrature_directions(code: u8)
    requires
        code < 4,
    ensures
        quadrature_quarters(code, clockwise_next(code)) == 1,
        quadrature_quarters(clockwise_next(code), code) == -1,
        quadrature_quarters(code, clockwise_next(clockwise_next(code))) == 0,
        quadrature_quarters(code, code) == 0,
{
}

/// Knob decoding: four quarter steps in one direction starting from rest
/// report exactly one increment in that direction, at the fourth step.
pub proof fn lemma_full_detent_reports_one_increment(m: ScannerModel, a: (bool, bool), b: (bool, bool), c: (bool, bool), d: (bool, bool))
    requires
        m.knob_quarters == 0,
        m.previous_knob_state < 4,
        m.events.len() < EVENT_QUEUE_CAPACITY,
        knob_code(a) == clockwise_next(m.previous_knob_state),
        knob_code(b) == clockwise_next(knob_code(a)),
        knob_code(c) == clockwise_next(knob_code(b)),
        knob_code(d) == clockwise_next(knob_code(c)),
    ensures
        ({
            let m1 = apply_knob(m, a).0;
            let m2 = apply_knob(m1, b).0;
            let m3 = apply_knob(m2, c).0;
            let (m4, full) = apply_knob(m3, d);
            &&& m3.events == m.events
            &&& !full
            &&& m4.events == m.events.push(GpioEvent::KnobIncrement(1))
            &&& m4.knob_quarters == 0
        }),
{
    lemma_quadrature_directions(m.previous_knob_state);
    lemma_quadrature_directions(knob_code(a));
    lemma_quadrature_directions(knob_code(b));
    lemma_quadrature_directions(knob_code(c));
}

/// The abstract state of a scanner: the debouncing state of each button in
/// scan order, the pending events oldest first, the last encoder code and
/// the accumulated encoder quarter steps.
pub struct ScannerModel {
    pub buttons: Seq<ButtonState>,
    pub events: Seq<GpioEvent>,
    pub previous_knob_state: u8,
    pub knob_quarters: i8,
}

/// Appends an event to the pending events; `None` when the queue is full.
pub open spec fn push_event_model(m: ScannerModel, event: GpioEvent) -> Option<ScannerModel> {
    if m.events.len() >= EVENT_QUEUE_CAPACITY {
        None
    } else {
        Some(ScannerModel { events: m.events.push(event), ..m })
    }
}

/// One sample of the button at scan position `index`; the flag tells that an
/// event was due while the queue was full, which stops the scan.
pub open spec fn apply_button(m: ScannerModel, config: GpioConfig, index: int, pressed: bool) -> (
    ScannerModel,
    bool,
) {
    let button = Button::spec_at(index);
    let (state, press_event, reset_event) = button_update(
        m.buttons[index],
        pressed,
        config,
        button == config.reset_button,
    );
    let m1 = ScannerModel { buttons: m.buttons.update(index, state), ..m };
    if press_event && push_event_model(m1, button.spec_event()) is None {
        (m1, true)
    } else {
        let m2 = if press_event {
            push_event_model(m1, button.spec_event()).unwrap()
        } else {
            m1
        };
        if reset_event && push_event_model(m2, GpioEvent::Reset) is None {
            (m2, true)
        } else if reset_event {
            (push_event_model(m2, GpioEvent::Reset).unwrap(), false)
        } else {
            (m2, false)
        }
    }
}

/// Samples the buttons in scan order, one reading each, stopping at the first
/// full queue.
pub open spec fn scan_buttons(m: ScannerModel, config: GpioConfig, readings: Seq<bool>) -> (
    ScannerModel,
    bool,
) decreases readings.len(),
{
    if readings.len() == 0 {
        (m, false)
    } else {
        let (m1, full) = scan_buttons(m, config, readings.drop_last());
        if full {
            (m1, true)
        } else {
            apply_button(m1, config, readings.len() - 1, readings.last())
        }
    }
}

/// The two-bit code of the encoder's A/B levels.
pub open spec fn knob_code(levels: (bool, bool)) -> u8 {
    if levels.0 && levels.1 {
        3
    } else if levels.0 {
        2
    } else if levels.1 {
        1
    } else {
        0
    }
}

/// Quarter steps contributed by a move from one encoder code to another:
/// +1 along 00, 10, 11, 01, -1 the other way, 0 for no move or a skipped code.
pub open spec fn quadrature_quarters(previous: u8, current: u8) -> i8 {
    let t = previous * 4 + current;
    if t == 1 || t == 7 || t == 8 || t == 14 {
        -1i8
    } else if t == 2 || t == 4 || t == 11 || t == 13 {
        1
    } else {
        0
    }
}

/// One sample of the encoder: four quarter steps one way make one knob
/// increment that way.
pub open spec fn apply_knob(m: ScannerModel, levels: (bool, bool)) -> (ScannerModel, bool) {
    let current = knob_code(levels);
    let q = m.knob_quarters + quadrature_quarters(m.previous_knob_state, current);
    let m1 = ScannerModel { previous_knob_state: current, knob_quarters: q as i8, ..m };
    if q >= 4 {
        let m2 = ScannerModel { knob_quarters: 0, ..m1 };
        match push_event_model(m2, GpioEvent::KnobIncrement(1)) {
            Some(m3) => (m3, false),
            None => (m2, true),
        }
    } else if q <= -4 {
        let m2 = ScannerModel { knob_quarters: 0, ..m1 };
        match push_event_model(m2, GpioEvent::KnobIncrement(-1i16)) {
            Some(m3) => (m3, false),
            None => (m2, true),
        }
    } else {
        (m1, false)
    }
}

/// What a poll reports.
pub enum PollOutcome {
    Event(Option<GpioEvent>),
    QueueFull,
    HardwareFault,
}

/// Takes the oldest pending event.
pub open spec fn pop_event_model(m: ScannerModel) -> (ScannerModel, Option<GpioEvent>) {
    if m.events.len() == 0 {
        (m, None)
    } else {
        (ScannerModel { events: m.events.drop_first(), ..m }, Some(m.events[0]))
    }
}

/// The outcome of a poll, given what the hardware answered: a reading for
/// each button read successfully in scan order (fewer than seven when a
/// button read failed) and the encoder levels (`None` when that read failed).
pub open spec fn poll_model(
    m: ScannerModel,
    config: GpioConfig,
    readings: Seq<bool>,
    knob: Option<(bool, bool)>,
) -> (ScannerModel, PollOutcome) {
    let (m1, full) = scan_buttons(m, config, readings);
    if full {
        (m1, PollOutcome::QueueFull)
    } else if readings.len() < BUTTON_COUNT {
        (m1, PollOutcome::HardwareFault)
    } else {
        match knob {
            None => (m1, PollOutcome::HardwareFault),
            Some(levels) => {
                let (m2, full2) = apply_knob(m1, levels);
                if full2 {
                    (m2, PollOutcome::QueueFull)
                } else {
                    let (m3, event) = pop_event_model(m2);
                    (m3, PollOutcome::Event(event))
                }
            },
        }
    }
}

/// The kind of result a poll returned.
pub open spec fn poll_result_outcome<E>(r: Result<Option<GpioEvent>, ScanError<E>>) -> PollOutcome {
    match r {
        Ok(event) => PollOutcome::Event(event),
        Err(ScanError::EventQueueFull) => PollOutcome::QueueFull,
        Err(ScanError::Hardware(_)) => PollOutcome::HardwareFault,
    }
}

/// One read that a poll asks of the hardware, with its answer (`None` when
/// the read failed).
pub enum InputRead {
    Button { button: Button, pressed: Option<bool> },
    Knob { levels: Option<(bool, bool)> },
}

/// Successful reads of the buttons in scan order, one per reading.
pub open spec fn button_reads(readings: Seq<bool>) -> Seq<InputRead> {
    Seq::new(
        readings.len(),
        |i: int| InputRead::Button { button: Button::spec_at(i), pressed: Some(readings[i]) },
    )
}

/// The reads a poll makes: each button once in scan order, then the
/// encoder once; a failed read, or an event due while the queue is full,
/// ends the poll, and nothing more is read.
pub open spec fn poll_reads(readings: Seq<bool>, knob: Option<(bool, bool)>, outcome: PollOutcome) -> Seq<
    InputRead,
> {
    let done = button_reads(readings);
    if readings.len() < BUTTON_COUNT {
        if outcome is HardwareFault {
            done.push(
                InputRead::Button { button: Button::spec_at(readings.len() as int), pressed: None },
            )
        } else {
            done
        }
    } else {
        match knob {
            Some(levels) => done.push(InputRead::Knob { levels: Some(levels) }),
            None => if outcome is HardwareFault {
                done.push(InputRead::Knob { levels: None })
            } else {
                done
            },
        }
    }
}

/// Debounces buttons, detects a long press, and decodes a quadrature knob.
/// Call `poll` at a fixed rate so the tick-based timing remains deterministic.
pub struct GpioScanner {
    config: GpioConfig,
    buttons: Vec<ButtonState>,
    events: CommandQueue<GpioEvent, EVENT_QUEUE_CAPACITY>,
    previous_knob_state: u8,
    knob_quarters: i8,
    reads: Ghost<Seq<InputRead>>,
}

impl GpioScanner {
    /// The reads asked of the hardware so far, oldest first.
    pub closed spec fn reads(&self) -> Seq<InputRead> {
        self.reads@
    }

    pub closed spec fn wf(&self) -> bool {
        &&& self.config.debounce_ticks > 0
        &&& self.config.reset_hold_ticks > 0
        &&& self.buttons@.len() == BUTTON_COUNT
        &&& self.events.wf()
        &&& self.previous_knob_state < 4
        &&& -3 <= self.knob_quarters <= 3
    }

    pub closed spec fn config(&self) -> GpioConfig {
        self.config
    }

    pub closed spec fn model(&self) -> ScannerModel {
        ScannerModel {
            buttons: self.buttons@,
            events: self.events.view(),
            previous_knob_state: self.previous_knob_state,
            knob_quarters: self.knob_quarters,
        }
    }

    pub fn new(config: GpioConfig, initial_knob_state: (bool, bool)) -> (r: Self)
        requires
            config.debounce_ticks > 0,
            config.reset_hold_ticks > 0,
        ensures
            r.wf(),
            r.config() == config,
            r.model().buttons == Seq::new(BUTTON_COUNT as nat, |i: int| released_button()),
            r.model().events == Seq::<GpioEvent>::empty(),
            r.model().previous_knob_state == knob_code(initial_knob_state),
            r.model().knob_quarters == 0,
            r.reads() == Seq::<InputRead>::empty(),
    {
        let mut buttons: Vec<ButtonState> = Vec::new();
        let mut i: usize = 0;
        while i < BUTTON_COUNT
            invariant
                i <= BUTTON_COUNT,
                buttons@ == Seq::new(i as nat, |j: int| released_button()),
            decreases BUTTON_COUNT - i,
        {
            buttons.push(ButtonState::new());
            i = i + 1;
            assert(buttons@ =~= Seq::new(i as nat, |j: int| released_button()));
        }
        Self {
            config,
            buttons,
            events: CommandQueue::new(),
            previous_knob_state: encode_knob_state(initial_knob_state),
            knob_quarters: 0,
            reads: Ghost(Seq::empty()),
        }
    }

    /// Samples every input once and returns the oldest pending event.
    ///
    /// Buttons are read in scan order (Up, Down, In, Out, Select, On, Off),
    /// each once and each reading applied before the next button is read,
    /// then the encoder once; a failed read or a full queue stops the poll
    /// with the readings so far applied, and nothing more is read. The
    /// readings that the poll's model applies are the hardware's answers.
    pub fn poll<H: GpioHardware>(&mut self, hardware: &mut H) -> (r: Result<
        Option<GpioEvent>,
        ScanError<H::Error>,
    >)
        requires
            old(self).wf(),
        ensures
            final(self).wf(),
            final(self).config() == old(self).config(),
            exists|readings: Seq<bool>, knob: Option<(bool, bool)>|
                readings.len() <= BUTTON_COUNT && #[trigger] poll_model(
                    old(self).model(),
                    old(self).config(),
                    readings,
                    knob,
                ) == (final(self).model(), poll_result_outcome(r)) && final(self).reads() == old(
                    self,
                ).reads() + poll_reads(readings, knob, poll_result_outcome(r)),
    {
        let ghost start = self.model();
        let ghost start_reads = self.reads@;
        let (scanned, readings) = self.sample_buttons(hardware);
        match scanned {
            Ok(()) => {},
            Err(error) => {
                let r = Err(error);
                assert(self.reads@ =~= start_reads + poll_reads(readings@, None, poll_result_outcome(r)));
                assert(poll_model(start, self.config(), readings@, None) == (
                    self.model(),
                    poll_result_outcome(r),
                ));
                return r;
            },
        }
        let knob = hardware.knob_state();
        let ghost buttons_read = self.reads@;
        match knob {
            Ok(levels) => {
                self.reads = Ghost(self.reads@.push(InputRead::Knob { levels: Some(levels) }));
            },
            Err(_) => {
                self.reads = Ghost(self.reads@.push(InputRead::Knob { levels: None }));
            },
        }
        let levels = match knob {
            Ok(levels) => levels,
            Err(error) => {
                let r = Err(ScanError::Hardware(error));
                assert(self.reads@ =~= start_reads + poll_reads(readings@, None, poll_result_outcome(r)));
                assert(poll_model(start, self.config(), readings@, None) == (
                    self.model(),
                    poll_result_outcome(r),
                ));
                return r;
            },
        };
        assert(self.reads@ =~= buttons_read.push(InputRead::Knob { levels: Some(levels) }));
        match self.sample_knob::<H::Error>(levels) {
            Ok(()) => {},
            Err(error) => {
                let r = Err(error);
                assert(self.reads@ =~= start_reads + poll_reads(
                    readings@,
                    Some(levels),
                    poll_result_outcome(r),
                ));
                assert(poll_model(start, self.config(), readings@, Some(levels)) == (
                    self.model(),
                    poll_result_outcome(r),
                ));
                return r;
            },
        }
        let event = self.next_event();
        let r = Ok(event);
        assert(self.reads@ =~= start_reads + poll_reads(readings@, Some(levels), poll_result_outcome(r)));
        assert(poll_model(start, self.config(), readings@, Some(levels)) == (
            self.model(),
            poll_result_outcome(r),
        ));
        r
    }

    /// Reads and applies each button in scan order, stopping at a failed
    /// read or a full queue; the second result holds the readings applied.
    fn sample_buttons<H: GpioHardware>(&mut self, hardware: &mut H) -> (r: (
        Result<(), ScanError<H::Error>>,
        Ghost<Seq<bool>>,
    ))
        requires
            old(self).wf(),
        ensures
            final(self).wf(),
            final(self).config() == old(self).config(),
            r.1@.len() <= BUTTON_COUNT,
            scan_buttons(old(self).model(), old(self).config(), r.1@) == (
                final(self).model(),
                r.0 matches Err(ScanError::EventQueueFull),
            ),
            r.0 is Ok ==> r.1@.len() == BUTTON_COUNT,
            r.0 matches Err(ScanError::Hardware(_)) ==> r.1@.len() < BUTTON_COUNT,
            r.0 matches Err(ScanError::Hardware(_)) ==> final(self).reads() == old(self).reads()
                + button_reads(r.1@).push(
                InputRead::Button { button: Button::spec_at(r.1@.len() as int), pressed: None },
            ),
            !(r.0 matches Err(ScanError::Hardware(_))) ==> final(self).reads() == old(self).reads()
                + button_reads(r.1@),
    {
        let ghost start = self.model();
        let ghost start_reads = self.reads@;
        let ghost mut readings: Seq<bool> = Seq::empty();
        let mut index: usize = 0;
        while index < BUTTON_COUNT
            invariant
                self.wf(),
                self.config() == old(self).config(),
                index <= BUTTON_COUNT,
                readings.len() == index,
                start == old(self).model(),
                start_reads == old(self).reads@,
                scan_buttons(start, self.config(), readings) == (self.model(), false),
                self.reads@ == start_reads + button_reads(readings),
            decreases BUTTON_COUNT - index,
        {
            let button = Button::at(index);
            let answer = hardware.button_is_pressed(button);
            let pressed = match answer {
                Ok(pressed) => pressed,
                Err(error) => {
                    self.reads = Ghost(
                        self.reads@.push(InputRead::Button { button, pressed: None }),
                    );
                    return (Err(ScanError::Hardware(error)), Ghost(readings));
                },
            };
            let ghost before = readings;
            proof {
                readings = readings.push(pressed);
                assert(readings.drop_last() =~= before);
                self.reads = Ghost(self.reads@.push(InputRead::Button { button, pressed: Some(pressed) }));
                assert(button_reads(readings) =~= button_reads(before).push(
                    InputRead::Button { button, pressed: Some(pressed) },
                ));
                assert(self.reads@ =~= start_reads + button_reads(readings));
            }
            match self.sample_button::<H::Error>(index, pressed) {
                Ok(()) => {},
                Err(error) => return (Err(error), Ghost(readings)),
            }
            index = index + 1;
        }
        (Ok(()), Ghost(readings))
    }

    /// Takes the oldest pending event.
    pub fn next_event(&mut self) -> (r: Option<GpioEvent>)
        requires
            old(self).wf(),
        ensures
            final(self).wf(),
            final(self).config() == old(self).config(),
            final(self).reads() == old(self).reads(),
            pop_event_model(old(self).model()) == (final(self).model(), r),
    {
        let r = self.events.pop();
        proof {
            if old(self).model().events.len() > 0 {
                assert(self.model() == ScannerModel {
                    events: old(self).model().events.drop_first(),
                    ..old(self).model()
                });
            }
        }
        r
    }

    /// Applies one reading of the button at scan position `index`.
    fn sample_button<E>(&mut self, index: usize, pressed: bool) -> (r: Result<(), ScanError<E>>)
        requires
            old(self).wf(),
            index < BUTTON_COUNT,
        ensures
            final(self).wf(),
            final(self).config() == old(self).config(),
            final(self).reads() == old(self).reads(),
            apply_button(old(self).model(), old(self).config(), index as int, pressed) == (
                final(self).model(),
                r is Err,
            ),
            r is Err ==> r == Err::<(), ScanError<E>>(ScanError::EventQueueFull),
    {
        let button = Button::at(index);
        let is_reset_button = button == self.config.reset_button;
        let mut state = self.buttons[index];
        let ghost old_state = state;
        let ghost expected = button_update(old_state, pressed, self.config, is_reset_button);
        let mut press_event = false;
        let mut reset_event = false;

        if pressed == state.raw_pressed {
            state.identical_samples = state.identical_samples.saturating_add(1);
        } else {
            state.raw_pressed = pressed;
            state.identical_samples = 1;
        }

        if state.raw_pressed != state.stable_pressed && state.identical_samples
            >= self.config.debounce_ticks {
            state.stable_pressed = state.raw_pressed;
            state.held_ticks = 0;
            state.reset_sent = false;
            press_event = state.stable_pressed;
        }

        if state.stable_pressed {
            state.held_ticks = state.held_ticks.saturating_add(1);
            if is_reset_button && !state.reset_sent && state.held_ticks
                >= self.config.reset_hold_ticks {
                state.reset_sent = true;
                reset_event = true;
            }
        }
        assert(expected == (state, press_event, reset_event));
        self.buttons.set(index, state);

        if press_event {
            self.push_event::<E>(button.event())?;
        }
        if reset_event {
            self.push_event::<E>(GpioEvent::Reset)?;
        }
        Ok(())
    }

    /// Applies one reading of the encoder levels.
    fn sample_knob<E>(&mut self, levels: (bool, bool)) -> (r: Result<(), ScanError<E>>)
        requires
            old(self).wf(),
        ensures
            final(self).wf(),
            final(self).config() == old(self).config(),
            final(self).reads() == old(self).reads(),
            apply_knob(old(self).model(), levels) == (final(self).model(), r is Err),
            r is Err ==> r == Err::<(), ScanError<E>>(ScanError::EventQueueFull),
    {
        let current = encode_knob_state(levels);
        let step = quadrature_step(self.previous_knob_state, current);
        self.knob_quarters = self.knob_quarters + step;
        self.previous_knob_state = current;

        if self.knob_quarters >= 4 {
            self.knob_quarters = 0;
            self.push_event::<E>(GpioEvent::KnobIncrement(1))?;
        } else if self.knob_quarters <= -4 {
            self.knob_quarters = 0;
            self.push_event::<E>(GpioEvent::KnobIncrement(-1))?;
        }
        Ok(())
    }

    fn push_event<E>(&mut self, event: GpioEvent) -> (r: Result<(), ScanError<E>>)
        requires
            old(self).wf() || (old(self).config.debounce_ticks > 0
                && old(self).config.reset_hold_ticks > 0
                && old(self).buttons@.len() == BUTTON_COUNT
                && old(self).events.wf()
                && old(self).previous_knob_state < 4
                && -4 <= old(self).knob_quarters <= 4),
        ensures
            final(self).config == old(self).config,
            final(self).reads == old(self).reads,
            final(self).buttons == old(self).buttons,
            final(self).previous_knob_state == old(self).previous_knob_state,
            final(self).knob_quarters == old(self).knob_quarters,
            final(self).events.wf(),
            push_event_model(old(self).model(), event) matches Some(m) ==> r is Ok
                && final(self).model() == m,
            push_event_model(old(self).model(), event) is None ==> r == Err::<(), ScanError<E>>(
                ScanError::EventQueueFull,
            ) && final(self).model() == old(self).model(),
    {
        match self.events.push(event) {
            Ok(()) => Ok(()),
            Err(_) => Err(ScanError::EventQueueFull),
        }
    }
}

/// The two-bit code of the encoder's A/B levels.
fn encode_knob_state(levels: (bool, bool)) -> (r: u8)
    ensures
        r == knob_code(levels),
        r < 4,
{
    let (a, b) = levels;
    let high: u8 = if a {
        2
    } else {
        0
    };
    let low: u8 = if b {
        1
    } else {
        0
    };
    high + low
}

/// Quarter steps of the move from encoder code `previous` to `current`.
fn quadrature_step(previous: u8, current: u8) -> (r: i8)
    requires
        previous < 4,
        current < 4,
    ensures
        r == quadrature_quarters(previous, current),
        -1 <= r <= 1,
{
    let transition = previous * 4 + current;
    match transition {
        1 | 7 | 8 | 14 => -1,
        2 | 4 | 11 | 13 => 1,
        _ => 0,
    }
}

} // verus!
