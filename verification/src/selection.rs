//! Which entry of a listing is highlighted, and when an activation confirms.
//!
//! There is no timing: activating the entry that is already highlighted is
//! what confirms it.

use vstd::prelude::*;

verus! {

/// What an activation came to.
#[derive(Clone, Copy, Debug, PartialEq, Eq, Structural)]
pub enum Activation {
    /// The entry was not highlighted before, and is now.
    Highlighted,
    /// The entry was highlighted already: it is confirmed.
    Confirmed,
}

/// What activating `index` comes to where `highlighted` is highlighted.
pub open spec fn activation(highlighted: Option<nat>, index: nat) -> Activation {
    if highlighted == Some(index) {
        Activation::Confirmed
    } else {
        Activation::Highlighted
    }
}

/// The highlighted entry of a listing, by its index, if there is one.
#[derive(Clone, Copy, Debug, PartialEq, Eq)]
pub struct SelectionState {
    highlighted: Option<usize>,
}

impl View for SelectionState {
    type V = Option<nat>;

    closed spec fn view(&self) -> Option<nat> {
        match self.highlighted {
            Some(index) => Some(index as nat),
            None => None,
        }
    }
}

impl SelectionState {
    /// A selection with nothing highlighted.
    pub fn new() -> (selection: SelectionState)
        ensures
            selection@ is None,
    {
        SelectionState { highlighted: None }
    }

    /// The index of the highlighted entry.
    pub fn highlighted(&self) -> (index: Option<usize>)
        ensures
            match index {
                Some(i) => self@ == Some(i as nat),
                None => self@ is None,
            },
    {
        self.highlighted
    }

    /// Whether the entry at `index` is the highlighted one.
    pub fn is_highlighted(&self, index: usize) -> (yes: bool)
        ensures
            yes == (self@ == Some(index as nat)),
    {
        match self.highlighted {
            Some(i) => i == index,
            None => false,
        }
    }

    /// Activates the entry at `index`: highlights it, or confirms it if it
    /// is the highlighted one. Either way it is highlighted afterwards.
    pub fn activate(&mut self, index: usize) -> (result: Activation)
        ensures
            result == activation(old(self)@, index as nat),
            final(self)@ == Some(index as nat),
    {
        if self.is_highlighted(index) {
            Activation::Confirmed
        } else {
            self.highlighted = Some(index);
            Activation::Highlighted
        }
    }

    /// Removes the highlight.
    pub fn clear(&mut self)
        ensures
            final(self)@ is None,
    {
        self.highlighted = None;
    }
}

/// Activating an entry twice in a row highlights it the first time and
/// confirms it the second, whatever was highlighted before.
pub proof fn lemma_repeated_activation_confirms(highlighted: Option<nat>, index: nat)
    ensures
        highlighted != Some(index) ==> activation(highlighted, index) == Activation::Highlighted,
        activation(Some(index), index) == Activation::Confirmed,
{
}

} // verus!
