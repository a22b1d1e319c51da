//! The settings window shown on the board's display.
use vstd::prelude::*;

verus! {

#[derive(Debug, Clone, Copy, PartialEq, Eq, Structural)]
pub enum DisplayItem {
    Instrument,
    MasterGain,
}

impl DisplayItem {
    /// The item above this one; the list wraps around.
    pub open spec fn spec_previous(self) -> DisplayItem {
        match self {
            DisplayItem::Instrument => DisplayItem::MasterGain,
            DisplayItem::MasterGain => DisplayItem::Instrument,
        }
    }

    /// The item below this one; with two items it is also the one above.
    pub open spec fn spec_next(self) -> DisplayItem {
        self.spec_previous()
    }

    pub fn previous(self) -> (r: Self)
        ensures
            r == self.spec_previous(),
            r != self,
    {
        match self {
            Self::Instrument => Self::MasterGain,
            Self::MasterGain => Self::Instrument,
        }
    }

    pub fn next(self) -> (r: Self)
        ensures
            r == self.spec_next(),
            r != self,
    {
        self.previous()
    }
}

/// Moving down then up, or up then down, returns to the same item.
pub proof fn lemma_next_previous_inverse(item: DisplayItem)
    ensures
        item.spec_next().spec_previous() == item,
        item.spec_previous().spec_next() == item,
{
}

#[derive(Debug, Clone, Copy, PartialEq, Eq, Structural)]
pub enum DisplayCommand {
    Select(DisplayItem),
    SetEditing(bool),
    SetInstrument(usize),
    SetMasterGain(u8),
}

/// Complete state required to draw the board's settings window.
#[derive(Debug, Clone, Copy, PartialEq, Eq, Structural)]
pub struct WindowGui {
    pub selected_item: DisplayItem,
    pub editing: bool,
    pub selected_instrument: usize,
    pub master_gain_percent: u8,
}

/// The window shown at start-up and after a reset.
pub open spec fn default_window() -> WindowGui {
    WindowGui {
        selected_item: DisplayItem::Instrument,
        editing: false,
        selected_instrument: 0,
        master_gain_percent: 20,
    }
}

impl Default for WindowGui {
    fn default() -> (r: Self)
        ensures
            r == default_window(),
    {
        Self {
            selected_item: DisplayItem::Instrument,
            editing: false,
            selected_instrument: 0,
            master_gain_percent: 20,
        }
    }
}

/// The window after a command: each command sets exactly one field.
pub open spec fn apply_display_command(window: WindowGui, command: DisplayCommand) -> WindowGui {
    match command {
        DisplayCommand::Select(item) => WindowGui { selected_item: item, ..window },
        DisplayCommand::SetEditing(editing) => WindowGui { editing, ..window },
        DisplayCommand::SetInstrument(index) => WindowGui { selected_instrument: index, ..window },
        DisplayCommand::SetMasterGain(gain) => WindowGui { master_gain_percent: gain, ..window },
    }
}

/// LCD/framebuffer boundary implemented by the board display driver.
pub trait DisplayTarget {
    type Error;

    fn draw(&mut self, window: &WindowGui) -> Result<(), Self::Error>;
}

/// Keeps the window state and redraws it only after it changed.
pub struct Display<T> {
    target: T,
    window: WindowGui,
    dirty: bool,
    draws: Ghost<Seq<WindowGui>>,
}

impl<T: DisplayTarget> Display<T> {
    /// The window state that the display shows or will show.
    pub closed spec fn spec_window(&self) -> WindowGui {
        self.window
    }

    /// Whether the window changed since it was last drawn.
    pub closed spec fn spec_dirty(&self) -> bool {
        self.dirty
    }

    /// The windows handed to the target's `draw`, oldest first.
    pub closed spec fn draws(&self) -> Seq<WindowGui> {
        self.draws@
    }

    pub fn new(target: T, initial_window: WindowGui) -> (r: Self)
        ensures
            r.spec_window() == initial_window,
            r.spec_dirty(),
            r.draws() == Seq::<WindowGui>::empty(),
    {
        Self { target, window: initial_window, dirty: true, draws: Ghost(Seq::empty()) }
    }

    pub fn window(&self) -> (r: &WindowGui)
        ensures
            *r == self.spec_window(),
    {
        &self.window
    }

    pub fn send(&mut self, command: DisplayCommand)
        ensures
            final(self).spec_window() == apply_display_command(old(self).spec_window(), command),
            final(self).spec_dirty(),
            final(self).draws() == old(self).draws(),
    {
        match command {
            DisplayCommand::Select(item) => self.window.selected_item = item,
            DisplayCommand::SetEditing(editing) => self.window.editing = editing,
            DisplayCommand::SetInstrument(index) => self.window.selected_instrument = index,
            DisplayCommand::SetMasterGain(gain) => self.window.master_gain_percent = gain,
        }
        self.dirty = true;
    }

    /// Draws the window if it changed since the last successful draw, and
    /// tells whether it drew. A failed draw leaves the window to be drawn.
    pub fn render_if_dirty(&mut self) -> (r: Result<bool, T::Error>)
        ensures
            final(self).spec_window() == old(self).spec_window(),
            old(self).spec_dirty() ==> final(self).draws() == old(self).draws().push(
                old(self).spec_window(),
            ),
            !old(self).spec_dirty() ==> final(self).draws() == old(self).draws(),
            !old(self).spec_dirty() ==> (r matches Ok(drew) && !drew) && !final(self).spec_dirty(),
            old(self).spec_dirty() ==> match r {
                Ok(drew) => drew && !final(self).spec_dirty(),
                Err(_) => final(self).spec_dirty(),
            },
    {
        if !self.dirty {
            return Ok(false);
        }
        let drawn = self.target.draw(&self.window);
        self.draws = Ghost(self.draws@.push(self.window));
        match drawn {
            Ok(()) => {},
            Err(error) => return Err(error),
        }
        self.dirty = false;
        Ok(true)
    }
}

} // verus!
