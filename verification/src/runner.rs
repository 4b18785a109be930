//! One run of a dialog, event by event: what each event makes of the state,
//! what is to be done next, and when the outcome goes into the slot.
//!
//! Whoever runs a dialog owns the loop: it waits for events, reads the
//! directories that it is asked to read, draws, and stops when told to. What
//! it has to do at each turn is decided here.

use crate::channel::{ResultChannel, Slot, WriteError};
use crate::config::DialogSettings;
use crate::dialog::{DialogState, DialogView, DirReading, Effect, EffectView, Intent, IntentView};
use crate::listing::{is_listing_of, views};
use vstd::prelude::*;

verus! {

/// Something that happens to a running dialog.
#[derive(Clone, Debug, PartialEq, Eq)]
pub enum Event {
    /// The user did this.
    Intent(Intent),
    /// The directory with this path was read, with this result.
    Read(String, DirReading),
    /// The dialog's window was closed.
    Closed,
}

/// What whoever runs the dialog does next.
#[derive(Clone, Debug, PartialEq, Eq)]
pub enum Next {
    /// Draw, and wait for the next event.
    Continue,
    /// Read this directory, and come back with what was found.
    Read(String),
    /// Stop: the dialog has ended, and its outcome is in the slot.
    Stop,
}

/// What a `Next` stands for.
pub enum NextView {
    Continue,
    Read(Seq<char>),
    Stop,
}

impl View for Next {
    type V = NextView;

    open spec fn view(&self) -> NextView {
        match self {
            Next::Continue => NextView::Continue,
            Next::Read(path) => NextView::Read(path@),
            Next::Stop => NextView::Stop,
        }
    }
}

/// What is done after an effect, given the slot: an outcome is written,
/// and the run stops unless the slot refuses it; a directory is read; or the
/// run goes on.
pub open spec fn spec_conclude(effect: EffectView, slot: Slot) -> Result<NextView, WriteError> {
    match effect {
        EffectView::Finished(_) => match slot.write_result() {
            Ok(_) => Ok(NextView::Stop),
            Err(e) => Err(e),
        },
        EffectView::ReadDirectory(path) => Ok(NextView::Read(path)),
        EffectView::Nothing => Ok(NextView::Continue),
    }
}

/// The slot after an effect: the outcome is in it if the effect brought one
/// and the slot was empty.
pub open spec fn spec_deliver(effect: EffectView, slot: Slot) -> Slot {
    match effect {
        EffectView::Finished(outcome) => slot.written(outcome),
        _ => slot,
    }
}

/// Whether a dialog and its slot go together: as long as the dialog has not
/// ended, nothing was written and the writer is there.
pub open spec fn in_step(state: DialogView, slot: Slot) -> bool {
    !state.terminated() ==> slot == Slot::Empty
}

/// Does with `effect` what is to be done: writes an outcome into the slot,
/// and says what comes next. A refused write is handed on as the error that
/// it is.
pub fn conclude(effect: Effect, channel: &mut ResultChannel) -> (next: Result<Next, WriteError>)
    requires
        old(channel).wf(),
    ensures
        final(channel).wf(),
        final(channel)@ == spec_deliver(effect@, old(channel)@),
        match next {
            Ok(n) => spec_conclude(effect@, old(channel)@) == Ok::<NextView, WriteError>(n@),
            Err(e) => spec_conclude(effect@, old(channel)@) == Err::<NextView, WriteError>(e),
        },
{
    match effect {
        Effect::Finished(outcome) => match channel.write(outcome) {
            Ok(_) => Ok(Next::Stop),
            Err(e) => Err(e),
        },
        Effect::ReadDirectory(path) => Ok(Next::Read(path)),
        Effect::Nothing => Ok(Next::Continue),
    }
}

/// One run of a dialog.
#[derive(Debug)]
pub struct DialogRunner {
    state: DialogState,
}

impl View for DialogRunner {
    type V = DialogView;

    closed spec fn view(&self) -> DialogView {
        self.state@
    }
}

impl DialogRunner {
    /// The state of the dialog is well formed.
    pub closed spec fn wf(&self) -> bool {
        self.state.wf()
    }

    /// Starts a run from the settings given. The first thing to do is to
    /// read the directory in which the dialog starts.
    pub fn start(settings: DialogSettings) -> (started: (DialogRunner, Next))
        ensures
            started.0.wf(),
            started.0@ == settings.spec_into_state(),
            started.1@ == NextView::Read(settings.starting_path@),
    {
        let first = settings.starting_path.clone();
        let state = settings.into_state();
        (DialogRunner { state }, Next::Read(first))
    }

    /// The state of the dialog.
    pub fn state(&self) -> (state: &DialogState)
        ensures
            state@ == self@,
            self.wf() ==> state.wf(),
    {
        &self.state
    }

    /// Whether the dialog has not ended yet.
    pub fn is_running(&self) -> (running: bool)
        ensures
            running == !self@.terminated(),
    {
        !self.state.is_terminated()
    }

    /// Takes in one event. An intent is applied to the state, a closed
    /// window counts as a cancel, and what was read of a directory is shown
    /// if it was one. The intent that ends the dialog has its outcome written
    /// into the slot. Once the dialog has ended, every event is answered with
    /// `Stop` and changes nothing.
    ///
    /// A run that started in step with its slot stays in step and never has
    /// a write refused.
    pub fn handle(&mut self, event: Event, channel: &mut ResultChannel) -> (next: Result<
        Next,
        WriteError,
    >)
        requires
            old(self).wf(),
            old(channel).wf(),
        ensures
            final(self).wf(),
            final(channel).wf(),
            in_step(old(self)@, old(channel)@) ==> next is Ok && in_step(
                final(self)@,
                final(channel)@,
            ),
            old(self)@.terminated() ==> {
                &&& final(self)@ == old(self)@
                &&& final(channel)@ == old(channel)@
                &&& next matches Ok(n)
                &&& n@ == NextView::Stop
            },
            !old(self)@.terminated() ==> match event {
                Event::Intent(intent) => {
                    &&& final(self)@ == old(self)@.step(intent@)
                    &&& final(channel)@ == spec_deliver(
                        old(self)@.effect(intent@),
                        old(channel)@,
                    )
                    &&& match next {
                        Ok(n) => spec_conclude(old(self)@.effect(intent@), old(channel)@) == Ok::<
                            NextView,
                            WriteError,
                        >(n@),
                        Err(e) => spec_conclude(old(self)@.effect(intent@), old(channel)@) == Err::<
                            NextView,
                            WriteError,
                        >(e),
                    }
                },
                Event::Closed => {
                    &&& final(self)@ == old(self)@.cancelled()
                    &&& final(channel)@ == spec_deliver(
                        old(self)@.effect(IntentView::Cancel),
                        old(channel)@,
                    )
                    &&& match next {
                        Ok(n) => spec_conclude(old(self)@.effect(IntentView::Cancel), old(channel)@)
                            == Ok::<NextView, WriteError>(n@),
                        Err(e) => spec_conclude(
                            old(self)@.effect(IntentView::Cancel),
                            old(channel)@,
                        ) == Err::<NextView, WriteError>(e),
                    }
                },
                Event::Read(path, reading) => {
                    &&& final(channel)@ == old(channel)@
                    &&& next matches Ok(n)
                    &&& n@ == NextView::Continue
                    &&& !(reading is Listed) ==> final(self)@ == old(self)@
                    &&& reading is Listed ==> {
                        &&& final(self)@ == old(self)@.entered(path@, final(self)@.listing)
                        &&& is_listing_of(
                            final(self)@.listing,
                            views(reading->Listed_0@),
                            old(self)@.mode,
                            old(self)@.filter_hidden,
                        )
                    }
                },
            },
    {
        if self.state.is_terminated() {
            return Ok(Next::Stop);
        }
        match event {
            Event::Intent(intent) => {
                let effect = self.state.apply(intent);
                conclude(effect, channel)
            },
            Event::Closed => {
                let effect = self.state.cancel();
                conclude(effect, channel)
            },
            Event::Read(path, reading) => {
                self.state.navigate(path, reading);
                Ok(Next::Continue)
            },
        }
    }
}

/// A run that is in step with its slot has no write refused, whatever the
/// intent, and is in step afterwards: the slot is written exactly when the
/// dialog ends, and what it holds from there on is the dialog's outcome.
pub proof fn lemma_run_stays_in_step(state: DialogView, slot: Slot, intent: IntentView)
    requires
        !state.terminated(),
        in_step(state, slot),
    ensures
        spec_conclude(state.effect(intent), slot) is Ok,
        in_step(state.step(intent), spec_deliver(state.effect(intent), slot)),
        state.step(intent).terminated() ==> spec_deliver(state.effect(intent), slot) == Slot::Full(
            state.step(intent).outcome->0,
        ),
        !state.step(intent).terminated() ==> spec_deliver(state.effect(intent), slot)
            == Slot::Empty,
{
}

} // verus!
