//! The outcome of a dialog, and the one slot through which it reaches the
//! caller.
//!
//! The slot is written at most once, by whoever runs the dialog, and read by
//! the caller. It is plain state: sharing it between the two and waiting for
//! it to fill is left to them.

use vstd::prelude::*;

verus! {

/// How a dialog ended.
#[derive(Clone, Debug, PartialEq, Eq)]
pub enum Outcome {
    /// The user chose this path.
    Selected(String),
    /// The user chose nothing.
    Cancelled,
}

/// What an `Outcome` stands for.
pub enum OutcomeView {
    Selected(Seq<char>),
    Cancelled,
}

impl View for Outcome {
    type V = OutcomeView;

    open spec fn view(&self) -> OutcomeView {
        match self {
            Outcome::Selected(path) => OutcomeView::Selected(path@),
            Outcome::Cancelled => OutcomeView::Cancelled,
        }
    }
}

impl OutcomeView {
    /// The path chosen, if one was.
    pub open spec fn path(self) -> Option<Seq<char>> {
        match self {
            OutcomeView::Selected(path) => Some(path),
            OutcomeView::Cancelled => None,
        }
    }
}

impl Outcome {
    /// A copy of this outcome.
    pub fn duplicate(&self) -> (copy: Outcome)
        ensures
            copy@ == self@,
    {
        match self {
            Outcome::Selected(path) => Outcome::Selected(path.clone()),
            Outcome::Cancelled => Outcome::Cancelled,
        }
    }

    /// Whether nothing was chosen.
    pub fn is_cancelled(&self) -> (cancelled: bool)
        ensures
            cancelled == (self@ == OutcomeView::Cancelled),
    {
        match self {
            Outcome::Selected(_) => false,
            Outcome::Cancelled => true,
        }
    }

    /// The path chosen, if one was.
    pub fn into_path(self) -> (path: Option<String>)
        ensures
            match path {
                Some(p) => self@.path() == Some(p@),
                None => self@.path() is None,
            },
    {
        match self {
            Outcome::Selected(path) => Some(path),
            Outcome::Cancelled => None,
        }
    }
}

/// What the caller finds in the slot.
#[derive(Clone, Debug, PartialEq, Eq)]
pub enum Delivery {
    /// The dialog has ended, with this outcome.
    Ready(Outcome),
    /// The dialog has not ended yet.
    Pending,
    /// The outcome was taken out before.
    Consumed,
    /// The writer went away without an outcome: none will come.
    Abandoned,
}

/// What a `Delivery` stands for.
pub enum DeliveryView {
    Ready(OutcomeView),
    Pending,
    Consumed,
    Abandoned,
}

impl View for Delivery {
    type V = DeliveryView;

    open spec fn view(&self) -> DeliveryView {
        match self {
            Delivery::Ready(outcome) => DeliveryView::Ready(outcome@),
            Delivery::Pending => DeliveryView::Pending,
            Delivery::Consumed => DeliveryView::Consumed,
            Delivery::Abandoned => DeliveryView::Abandoned,
        }
    }
}

/// Why an outcome was not written.
#[derive(Clone, Copy, Debug, PartialEq, Eq, Structural)]
pub enum WriteError {
    /// An outcome was written before. Whoever runs a dialog must treat this
    /// as fatal.
    AlreadyWritten,
    /// The writer had gone away.
    Closed,
}

/// The states of the slot.
pub enum Slot {
    /// Nothing was written, and the writer is still there.
    Empty,
    /// The outcome was written and waits to be taken.
    Full(OutcomeView),
    /// The outcome was written and taken.
    Consumed,
    /// The writer went away before it wrote.
    Abandoned,
}

impl Slot {
    /// Whether the caller need not wait any longer.
    pub open spec fn resolved(self) -> bool {
        self != Slot::Empty
    }

    /// What a write is answered with: success on the empty slot only.
    pub open spec fn write_result(self) -> Result<(), WriteError> {
        match self {
            Slot::Empty => Ok(()),
            Slot::Full(_) => Err(WriteError::AlreadyWritten),
            Slot::Consumed => Err(WriteError::AlreadyWritten),
            Slot::Abandoned => Err(WriteError::Closed),
        }
    }

    /// The slot after a write of `outcome`: only the empty slot takes it.
    pub open spec fn written(self, outcome: OutcomeView) -> Slot {
        match self {
            Slot::Empty => Slot::Full(outcome),
            _ => self,
        }
    }

    /// The slot after the writer has gone away: abandoned, if nothing was
    /// written.
    pub open spec fn released(self) -> Slot {
        match self {
            Slot::Empty => Slot::Abandoned,
            _ => self,
        }
    }

    /// What the caller finds.
    pub open spec fn peek(self) -> DeliveryView {
        match self {
            Slot::Empty => DeliveryView::Pending,
            Slot::Full(outcome) => DeliveryView::Ready(outcome),
            Slot::Consumed => DeliveryView::Consumed,
            Slot::Abandoned => DeliveryView::Abandoned,
        }
    }

    /// The slot after the caller has taken what it found: an outcome is gone
    /// from it, anything else stays.
    pub open spec fn taken(self) -> Slot {
        match self {
            Slot::Full(_) => Slot::Consumed,
            _ => self,
        }
    }
}

/// An outcome written to the empty slot is found there as often as the caller
/// looks, is handed out by the first take, and by no take after it.
pub proof fn lemma_outcome_is_delivered_once(outcome: OutcomeView)
    ensures
        Slot::Empty.write_result() is Ok,
        Slot::Empty.written(outcome).peek() == DeliveryView::Ready(outcome),
        Slot::Empty.written(outcome).taken().peek() == DeliveryView::Consumed,
        Slot::Empty.written(outcome).taken().taken().peek() == DeliveryView::Consumed,
{
}

/// After a first write every further write is refused, and changes nothing:
/// the first outcome stays the one that is delivered.
pub proof fn lemma_second_write_is_refused(slot: Slot, first: OutcomeView, second: OutcomeView)
    requires
        slot.write_result() is Ok,
    ensures
        slot.written(first).write_result() == Err::<(), WriteError>(WriteError::AlreadyWritten),
        slot.written(first).written(second) == slot.written(first),
        slot.written(first).taken().write_result() == Err::<(), WriteError>(
            WriteError::AlreadyWritten,
        ),
        slot.written(first).taken().written(second) == slot.written(first).taken(),
{
}

/// A writer that goes away without writing leaves the caller an abandoned
/// slot, not a pending one, whether the caller looks or takes; one that goes
/// away after writing changes nothing.
pub proof fn lemma_release_resolves(slot: Slot)
    ensures
        slot.released().resolved(),
        slot == Slot::Empty ==> slot.released().peek() == DeliveryView::Abandoned,
        slot == Slot::Empty ==> slot.released().taken() == Slot::Abandoned,
        slot != Slot::Empty ==> slot.released() == slot,
{
}

/// The slot through which the outcome of one dialog reaches the caller.
#[derive(Debug)]
pub struct ResultChannel {
    outcome: Option<Outcome>,
    written: bool,
    open: bool,
}

impl View for ResultChannel {
    type V = Slot;

    closed spec fn view(&self) -> Slot {
        match self.outcome {
            Some(outcome) => Slot::Full(outcome@),
            None => if self.written {
                Slot::Consumed
            } else if self.open {
                Slot::Empty
            } else {
                Slot::Abandoned
            },
        }
    }
}

impl ResultChannel {
    /// An outcome in the slot was written, by a writer that was there.
    pub closed spec fn wf(&self) -> bool {
        self.outcome is Some ==> self.written
    }

    /// The empty slot of a dialog that is about to run.
    pub fn new() -> (channel: ResultChannel)
        ensures
            channel.wf(),
            channel@ == Slot::Empty,
    {
        ResultChannel { outcome: None, written: false, open: true }
    }

    /// Writes the outcome of the dialog. Only the first write is accepted; a
    /// refused one leaves the slot as it was.
    pub fn write(&mut self, outcome: Outcome) -> (written: Result<(), WriteError>)
        requires
            old(self).wf(),
        ensures
            final(self).wf(),
            written == old(self)@.write_result(),
            final(self)@ == old(self)@.written(outcome@),
    {
        if self.written {
            Err(WriteError::AlreadyWritten)
        } else if !self.open {
            Err(WriteError::Closed)
        } else {
            self.outcome = Some(outcome);
            self.written = true;
            Ok(())
        }
    }

    /// Records that the writer has gone away. If it wrote nothing, the slot
    /// is abandoned from now on.
    pub fn release(&mut self)
        requires
            old(self).wf(),
        ensures
            final(self).wf(),
            final(self)@ == old(self)@.released(),
    {
        if !self.written {
            self.open = false;
        }
    }

    /// Whether the caller still has to wait.
    pub fn is_pending(&self) -> (pending: bool)
        requires
            self.wf(),
        ensures
            pending == !self@.resolved(),
    {
        !self.written && self.open
    }

    /// Looks into the slot and leaves it as it is: as long as nothing else
    /// happens to the slot, every look finds the same.
    pub fn try_take(&self) -> (found: Delivery)
        requires
            self.wf(),
        ensures
            found@ == self@.peek(),
    {
        match &self.outcome {
            Some(outcome) => Delivery::Ready(outcome.duplicate()),
            None => if self.written {
                Delivery::Consumed
            } else if self.open {
                Delivery::Pending
            } else {
                Delivery::Abandoned
            },
        }
    }

    /// Takes out of the slot what is there. An outcome is handed out once;
    /// while the slot is pending the caller has to wait and take again.
    pub fn take(&mut self) -> (found: Delivery)
        requires
            old(self).wf(),
        ensures
            final(self).wf(),
            found@ == old(self)@.peek(),
            final(self)@ == old(self)@.taken(),
    {
        match self.outcome.take() {
            Some(outcome) => Delivery::Ready(outcome),
            None => if self.written {
                Delivery::Consumed
            } else if self.open {
                Delivery::Pending
            } else {
                Delivery::Abandoned
            },
        }
    }
}

} // verus!
