use vstd::prelude::*;

verus! {

/// Codec/SAI boundary implemented by the board support layer.
pub trait AudioOutput {
    type Error;

    fn start(&mut self) -> Result<(), Self::Error>;

    fn stop(&mut self) -> Result<(), Self::Error>;

    fn write_interleaved_stereo(&mut self, samples: &[i16]) -> Result<(), Self::Error>;
}

/// A fixed-capacity first-in first-out queue kept in a ring of slots.
pub struct CommandQueue<T, const CAPACITY: usize> {
    slots: Vec<Option<T>>,
    read: usize,
    write: usize,
    len: usize,
}

/// Position in the ring of the `i`-th queued item, counting from `read`.
pub open spec fn ring_index(read: int, i: int, capacity: int) -> int {
    if read + i < capacity {
        read + i
    } else {
        read + i - capacity
    }
}

impl<T: Copy, const CAPACITY: usize> CommandQueue<T, CAPACITY> {
    /// The ring is consistent: every queued item sits in an occupied slot.
    pub closed spec fn wf(&self) -> bool {
        &&& self.slots@.len() == CAPACITY
        &&& (CAPACITY > 0 ==> self.read < CAPACITY)
        &&& self.len <= CAPACITY
        &&& self.write as int == ring_index(self.read as int, self.len as int, CAPACITY as int)
            || (self.len == CAPACITY && self.write == self.read)
        &&& forall|i: int|
            0 <= i < self.len ==> (#[trigger] self.slots@[ring_index(
                self.read as int,
                i,
                CAPACITY as int,
            )]) is Some
    }

    /// The queued items, oldest first.
    pub closed spec fn view(&self) -> Seq<T> {
        Seq::new(
            self.len as nat,
            |i: int| self.slots@[ring_index(self.read as int, i, CAPACITY as int)]->Some_0,
        )
    }

    /// A consistent queue never holds more than `CAPACITY` items.
    pub proof fn lemma_view_len(&self)
        requires
            self.wf(),
        ensures
            self.view().len() <= CAPACITY,
    {
    }

    pub fn new() -> (r: Self)
        ensures
            r.wf(),
            r.view() == Seq::<T>::empty(),
    {
        let mut slots: Vec<Option<T>> = Vec::new();
        let mut i: usize = 0;
        while i < CAPACITY
            invariant
                i <= CAPACITY,
                slots@.len() == i,
            decreases CAPACITY - i,
        {
            slots.push(None);
            i = i + 1;
        }
        let r = Self { slots, read: 0, write: 0, len: 0 };
        assert(r.view() =~= Seq::<T>::empty());
        r
    }

    pub fn len(&self) -> (r: usize)
        requires
            self.wf(),
        ensures
            r == self.view().len(),
    {
        self.len
    }

    pub fn is_full(&self) -> (r: bool)
        requires
            self.wf(),
        ensures
            r == (self.view().len() == CAPACITY),
    {
        self.len == CAPACITY
    }

    /// Appends `command`, or hands it back when every slot is taken.
    pub fn push(&mut self, command: T) -> (r: Result<(), T>)
        requires
            old(self).wf(),
        ensures
            final(self).wf(),
            old(self).view().len() >= CAPACITY ==> r == Err::<(), T>(command) && final(self).view()
                == old(self).view(),
            old(self).view().len() < CAPACITY ==> r is Ok && final(self).view() == old(
                self,
            ).view().push(command),
    {
        if self.len == CAPACITY {
            return Err(command);
        }
        let ghost old_view = self.view();
        let ghost old_slots = self.slots@;
        let w = self.write;
        self.slots.set(w, Some(command));
        self.write = if w + 1 == CAPACITY { 0 } else { w + 1 };
        self.len = self.len + 1;
        assert forall|i: int| 0 <= i < self.len implies (#[trigger] self.slots@[ring_index(
            self.read as int,
            i,
            CAPACITY as int,
        )]) is Some by {
            if i < self.len - 1 {
                assert(ring_index(self.read as int, i, CAPACITY as int) != w);
            }
        }
        assert(self.view() =~= old_view.push(command)) by {
            assert forall|i: int| 0 <= i < self.len - 1 implies #[trigger] ring_index(
                self.read as int,
                i,
                CAPACITY as int,
            ) != w by {}
        }
        Ok(())
    }

    /// Removes and returns the oldest queued item.
    pub fn pop(&mut self) -> (r: Option<T>)
        requires
            old(self).wf(),
        ensures
            final(self).wf(),
            old(self).view().len() == 0 ==> r is None && final(self).view() == old(self).view(),
            old(self).view().len() > 0 ==> r == Some(old(self).view()[0]) && final(self).view()
                == old(self).view().drop_first(),
    {
        if self.len == 0 {
            return None;
        }
        let ghost old_view = self.view();
        let rd = self.read;
        assert(ring_index(rd as int, 0, CAPACITY as int) == rd);
        let command = self.slots[rd];
        self.slots.set(rd, None);
        self.read = if rd + 1 == CAPACITY { 0 } else { rd + 1 };
        self.len = self.len - 1;
        assert forall|i: int| 0 <= i < self.len implies (#[trigger] self.slots@[ring_index(
            self.read as int,
            i,
            CAPACITY as int,
        )]) is Some by {
            assert(ring_index(self.read as int, i, CAPACITY as int) == ring_index(
                rd as int,
                i + 1,
                CAPACITY as int,
            ));
            assert(old(self).slots@[ring_index(rd as int, i + 1, CAPACITY as int)] is Some);
        }
        assert(self.view() =~= old_view.drop_first()) by {
            assert forall|i: int| 0 <= i < self.len implies #[trigger] ring_index(
                self.read as int,
                i,
                CAPACITY as int,
            ) == ring_index(rd as int, i + 1, CAPACITY as int) by {}
        }
        command
    }
}

} // verus!
