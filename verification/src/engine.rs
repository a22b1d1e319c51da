//! The engine's event handling: which instrument is selected and what each
//! note event asks of the synthesizer.
use vstd::prelude::*;
use crate::music::event::NoteEvent;
use crate::music::note::Note;

verus! {

/// A source of note events, polled by the engine.
pub trait InputSource {
    fn poll_event(&mut self) -> Option<NoteEvent>;
}

/// What a note event asks of the synthesizer.
#[derive(Debug, Clone, Copy, PartialEq, Eq, Structural)]
pub enum EngineAction {
    /// Start a voice for the note with the selected instrument.
    Play { note: Note, velocity: u8 },
    /// Release the voices playing the note.
    Release { note: Note },
    /// Select the instrument at this index, if there is one.
    SelectInstrument(usize),
    /// Nothing to do.
    Nothing,
    /// The engine does not handle this event.
    Unsupported,
}

/// The action for each event: note-on plays, note-off releases, a program
/// change selects the instrument numbered by the program, all-notes-off does
/// nothing, and the other events are not handled.
pub open spec fn spec_route_event(event: NoteEvent) -> EngineAction {
    match event {
        NoteEvent::NoteOn { note, velocity } => EngineAction::Play { note, velocity },
        NoteEvent::NoteOff { note } => EngineAction::Release { note },
        NoteEvent::AllNotesOff => EngineAction::Nothing,
        NoteEvent::ProgramChange { program } => EngineAction::SelectInstrument(program as usize),
        _ => EngineAction::Unsupported,
    }
}

pub fn route_event(event: NoteEvent) -> (r: EngineAction)
    ensures
        r == spec_route_event(event),
{
    match event {
        NoteEvent::NoteOn { note, velocity } => EngineAction::Play { note, velocity },
        NoteEvent::NoteOff { note } => EngineAction::Release { note },
        NoteEvent::AllNotesOff => EngineAction::Nothing,
        NoteEvent::ProgramChange { program } => EngineAction::SelectInstrument(program as usize),
        _ => EngineAction::Unsupported,
    }
}

/// Which instrument of a non-empty list new voices use.
pub struct InstrumentSelection {
    count: usize,
    selected: usize,
}

impl InstrumentSelection {
    pub closed spec fn count(&self) -> usize {
        self.count
    }

    pub closed spec fn selected(&self) -> usize {
        self.selected
    }

    /// There is an instrument, and the selected one is in the list.
    pub open spec fn wf(&self) -> bool {
        0 < self.count() && self.selected() < self.count()
    }

    /// Selects the first of `count` instruments.
    pub fn new(count: usize) -> (r: Self)
        requires
            count > 0,
        ensures
            r.wf(),
            r.count() == count,
            r.selected() == 0,
    {
        Self { count, selected: 0 }
    }

    pub fn selected_index(&self) -> (r: usize)
        ensures
            r == self.selected(),
    {
        self.selected
    }

    pub fn instrument_count(&self) -> (r: usize)
        ensures
            r == self.count(),
    {
        self.count
    }

    /// Selects the instrument at `index`; returns `false` and keeps the
    /// current instrument when `index` is outside the list.
    pub fn select(&mut self, index: usize) -> (r: bool)
        requires
            old(self).wf(),
        ensures
            final(self).wf(),
            final(self).count() == old(self).count(),
            r == (index < old(self).count()),
            r ==> final(self).selected() == index,
            !r ==> final(self).selected() == old(self).selected(),
    {
        if index >= self.count {
            return false;
        }
        self.selected = index;
        true
    }

    /// Takes a new list of `count` instruments, keeping the selected index
    /// when it is still in the list and moving it to the last instrument
    /// otherwise; an empty list is refused and changes nothing.
    pub fn replace(&mut self, count: usize) -> (r: bool)
        requires
            old(self).wf(),
        ensures
            final(self).wf(),
            r == (count > 0),
            r ==> final(self).count() == count && final(self).selected() == if old(self).selected()
                < count {
                old(self).selected()
            } else {
                (count - 1) as usize
            },
            !r ==> final(self).count() == old(self).count() && final(self).selected() == old(
                self,
            ).selected(),
    {
        if count == 0 {
            return false;
        }
        self.count = count;
        if self.selected > count - 1 {
            self.selected = count - 1;
        }
        true
    }
}

} // verus!
