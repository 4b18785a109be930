//! The state of a dialog, and what each thing the user can do makes of it.
//!
//! The state changes by intents. It reads no directory itself: where an
//! intent leads into a directory, the answer names it, and whoever runs the
//! dialog reads it and hands in what was found. A dialog ends once, with one
//! outcome; after that nothing changes it.

use crate::channel::{
    lemma_outcome_is_delivered_once, DeliveryView, Outcome, OutcomeView, Slot,
};
use crate::color::Rgba;
use crate::listing::{fits, is_listing_of, list, views, Entry, EntryView};
use crate::paginator::{lemma_page_count_bounds, Pages, Paginator, PER_PAGE};
use crate::paths::{join, parent, spec_join, spec_parent};
use crate::select::Mode;
use crate::selection::{Activation, SelectionState};
use vstd::prelude::*;

verus! {

/// What came of an attempt to read a directory.
#[derive(Clone, Debug, PartialEq, Eq)]
pub enum DirReading {
    /// The path does not name a directory.
    NotADirectory,
    /// The path names a directory that could not be read.
    Unreadable,
    /// The entries that the directory holds, in any order.
    Listed(Vec<Entry>),
}

/// Something the user does to a dialog.
#[derive(Clone, Debug, PartialEq, Eq)]
pub enum Intent {
    /// A click on the entry with this index in the listing.
    Activate(usize),
    /// Go to the directory above.
    NavigateUp,
    /// Go to this directory.
    Navigate(String),
    /// Show the next page of the listing.
    NextPage,
    /// Show the previous page of the listing.
    PrevPage,
    /// The file name to save to now reads like this.
    EditFilename(String),
    /// Save to the file name given, in the directory shown.
    ConfirmSave,
    /// Choose the directory shown.
    ConfirmFolder,
    /// Choose nothing.
    Cancel,
}

/// What an `Intent` stands for.
pub enum IntentView {
    Activate(nat),
    NavigateUp,
    Navigate(Seq<char>),
    NextPage,
    PrevPage,
    EditFilename(Seq<char>),
    ConfirmSave,
    ConfirmFolder,
    Cancel,
}

impl View for Intent {
    type V = IntentView;

    open spec fn view(&self) -> IntentView {
        match self {
            Intent::Activate(index) => IntentView::Activate(*index as nat),
            Intent::NavigateUp => IntentView::NavigateUp,
            Intent::Navigate(path) => IntentView::Navigate(path@),
            Intent::NextPage => IntentView::NextPage,
            Intent::PrevPage => IntentView::PrevPage,
            Intent::EditFilename(text) => IntentView::EditFilename(text@),
            Intent::ConfirmSave => IntentView::ConfirmSave,
            Intent::ConfirmFolder => IntentView::ConfirmFolder,
            Intent::Cancel => IntentView::Cancel,
        }
    }
}

/// What whoever runs the dialog has to do after an intent.
#[derive(Clone, Debug, PartialEq, Eq)]
pub enum Effect {
    /// Nothing but to go on.
    Nothing,
    /// Read this directory, and hand what was found to `navigate`.
    ReadDirectory(String),
    /// The dialog has just ended, with this outcome: deliver it, and stop.
    Finished(Outcome),
}

/// What an `Effect` stands for.
pub enum EffectView {
    Nothing,
    ReadDirectory(Seq<char>),
    Finished(OutcomeView),
}

impl View for Effect {
    type V = EffectView;

    open spec fn view(&self) -> EffectView {
        match self {
            Effect::Nothing => EffectView::Nothing,
            Effect::ReadDirectory(path) => EffectView::ReadDirectory(path@),
            Effect::Finished(outcome) => EffectView::Finished(outcome@),
        }
    }
}

/// What a `DialogState` stands for.
pub struct DialogView {
    /// The directory shown.
    pub dir: Seq<char>,
    /// What is shown of it.
    pub listing: Seq<EntryView>,
    /// Index in the listing of the highlighted entry.
    pub selected: Option<nat>,
    /// The paging of the listing.
    pub pages: Pages,
    /// The file name to save to, as edited so far.
    pub filename: Seq<char>,
    /// The kind of choice.
    pub mode: Mode,
    /// Whether entries whose name starts with a dot are left out.
    pub filter_hidden: bool,
    /// Whether the directory has changed since that was last asked.
    pub dir_changed: bool,
    /// The colour behind the dialog.
    pub background: Rgba,
    /// How the dialog ended, once it has.
    pub outcome: Option<OutcomeView>,
}

impl DialogView {
    /// The state of a dialog before anything was read: an empty listing on
    /// its one page, nothing highlighted, not ended.
    pub open spec fn initial(
        dir: Seq<char>,
        mode: Mode,
        filter_hidden: bool,
        filename: Seq<char>,
        background: Rgba,
    ) -> DialogView {
        DialogView {
            dir,
            listing: Seq::empty(),
            selected: None,
            pages: Pages::first(0, PER_PAGE as nat),
            filename,
            mode,
            filter_hidden,
            dir_changed: true,
            background,
            outcome: None,
        }
    }

    /// What holds of every state: the listing is in order and holds only
    /// what the mode and the filter let through; it is paged at the grid's
    /// capacity and the page shown is one of its pages; a highlighted entry
    /// is in the listing.
    pub open spec fn wf(self) -> bool {
        &&& fits(self.listing, self.mode, self.filter_hidden)
        &&& self.pages.wf()
        &&& self.pages.len == self.listing.len()
        &&& self.pages.capacity == PER_PAGE
        &&& self.selected matches Some(index) ==> index < self.listing.len()
    }

    /// Whether the dialog has ended.
    pub open spec fn terminated(self) -> bool {
        self.outcome is Some
    }

    /// This state, ended with `outcome`.
    pub open spec fn ended(self, outcome: OutcomeView) -> DialogView {
        DialogView { outcome: Some(outcome), ..self }
    }

    /// Whether confirming the entry at `index` chooses it: it is a file, and
    /// files can be chosen. Any other entry is gone into.
    pub open spec fn picks(self, index: nat) -> bool {
        self.mode.spec_show_files() && !self.listing[index as int].is_dir
    }

    /// Whether an activation of `index` counts: the dialog has not ended and
    /// the listing has such an entry.
    pub open spec fn accepts(self, index: nat) -> bool {
        !self.terminated() && index < self.listing.len()
    }

    /// The state after the entry at `index` was activated: highlighted if
    /// it was not, and chosen if it was and is a file that can be chosen.
    pub open spec fn activated(self, index: nat) -> DialogView {
        if !self.accepts(index) {
            self
        } else if self.selected != Some(index) {
            DialogView { selected: Some(index), ..self }
        } else if self.picks(index) {
            self.ended(OutcomeView::Selected(self.listing[index as int].path))
        } else {
            self
        }
    }

    /// The directory that an activation of `index` leads into, if it leads
    /// into one: the path of the highlighted entry that is confirmed and not
    /// chosen.
    pub open spec fn entering(self, index: nat) -> Option<Seq<char>> {
        if self.accepts(index) && self.selected == Some(index) && !self.picks(index) {
            Some(self.listing[index as int].path)
        } else {
            None
        }
    }

    /// The state after `path` was read as a directory and `listing` is what
    /// is shown of it: first page, nothing highlighted, the file name kept.
    pub open spec fn entered(self, path: Seq<char>, listing: Seq<EntryView>) -> DialogView {
        DialogView {
            dir: path,
            listing,
            selected: None,
            pages: Pages::first(listing.len(), PER_PAGE as nat),
            dir_changed: true,
            ..self
        }
    }

    /// The state after the file name was edited to `text`: only a dialog
    /// that saves has a file name to edit.
    pub open spec fn edited(self, text: Seq<char>) -> DialogView {
        if !self.terminated() && self.mode == Mode::SaveFile {
            DialogView { filename: text, ..self }
        } else {
            self
        }
    }

    /// The state after saving was confirmed: ended with the file name seen
    /// from the directory shown, if the dialog saves and has a file name.
    pub open spec fn saved(self) -> DialogView {
        if !self.terminated() && self.mode == Mode::SaveFile && self.filename.len() > 0 {
            self.ended(OutcomeView::Selected(spec_join(self.dir, self.filename)))
        } else {
            self
        }
    }

    /// The state after the folder was confirmed: ended with the directory
    /// shown, if the dialog chooses folders.
    pub open spec fn folder_confirmed(self) -> DialogView {
        if !self.terminated() && self.mode == Mode::OpenFolder {
            self.ended(OutcomeView::Selected(self.dir))
        } else {
            self
        }
    }

    /// The state after a cancel: ended with nothing chosen.
    pub open spec fn cancelled(self) -> DialogView {
        if !self.terminated() {
            self.ended(OutcomeView::Cancelled)
        } else {
            self
        }
    }

    /// The state with the next page shown.
    pub open spec fn next_page(self) -> DialogView {
        if !self.terminated() {
            DialogView { pages: self.pages.next(), ..self }
        } else {
            self
        }
    }

    /// The state with the previous page shown.
    pub open spec fn prev_page(self) -> DialogView {
        if !self.terminated() {
            DialogView { pages: self.pages.prev(), ..self }
        } else {
            self
        }
    }

    /// The state after `intent`. Going to a directory changes nothing by
    /// itself: the state changes when what was read there is handed in.
    pub open spec fn step(self, intent: IntentView) -> DialogView {
        match intent {
            IntentView::Activate(index) => self.activated(index),
            IntentView::NavigateUp => self,
            IntentView::Navigate(_) => self,
            IntentView::NextPage => self.next_page(),
            IntentView::PrevPage => self.prev_page(),
            IntentView::EditFilename(text) => self.edited(text),
            IntentView::ConfirmSave => self.saved(),
            IntentView::ConfirmFolder => self.folder_confirmed(),
            IntentView::Cancel => self.cancelled(),
        }
    }

    /// The state after the intents of `intents`, one after the other.
    pub open spec fn after(self, intents: Seq<IntentView>) -> DialogView
        decreases intents.len(),
    {
        if intents.len() == 0 {
            self
        } else {
            self.after(intents.drop_last()).step(intents.last())
        }
    }

    /// The directory that `intent` leads to, if it leads to one.
    pub open spec fn destination(self, intent: IntentView) -> Option<Seq<char>> {
        if self.terminated() {
            None
        } else {
            match intent {
                IntentView::Activate(index) => self.entering(index),
                IntentView::NavigateUp => spec_parent(self.dir),
                IntentView::Navigate(path) => Some(path),
                _ => None,
            }
        }
    }

    /// What is to be done after `intent`: the outcome delivered if the
    /// intent has ended the dialog, a directory read if it leads to one.
    pub open spec fn effect(self, intent: IntentView) -> EffectView {
        if !self.terminated() && self.step(intent).terminated() {
            EffectView::Finished(self.step(intent).outcome->0)
        } else {
            match self.destination(intent) {
                Some(path) => EffectView::ReadDirectory(path),
                None => EffectView::Nothing,
            }
        }
    }
}

/// Every intent leaves a state as well formed as it found it.
pub proof fn lemma_step_keeps_wf(state: DialogView, intent: IntentView)
    requires
        state.wf(),
    ensures
        state.step(intent).wf(),
{
}

/// Whatever the user does, in whatever order, as long as no directory is gone
/// into: the state stays well formed, with the page shown one of the pages of
/// the same listing; and a dialog that has ended stays as it ended.
pub proof fn lemma_intents_keep_wf(state: DialogView, intents: Seq<IntentView>)
    requires
        state.wf(),
    ensures
        state.after(intents).wf(),
        state.after(intents).listing == state.listing,
        state.after(intents).dir == state.dir,
        1 <= state.after(intents).pages.current <= state.pages.count(),
        state.terminated() ==> state.after(intents) == state,
    decreases intents.len(),
{
    if intents.len() > 0 {
        lemma_intents_keep_wf(state, intents.drop_last());
        lemma_step_keeps_wf(state.after(intents.drop_last()), intents.last());
    }
}

/// Going into a directory gives a well-formed state on its first page with
/// nothing highlighted, whatever page was shown and whatever was highlighted
/// before; the file name, the mode and the outcome stay.
pub proof fn lemma_entered_is_wf(state: DialogView, path: Seq<char>, listing: Seq<EntryView>)
    requires
        state.wf(),
        fits(listing, state.mode, state.filter_hidden),
    ensures
        state.entered(path, listing).wf(),
        state.entered(path, listing).pages.current == 1,
        state.entered(path, listing).selected is None,
        state.entered(path, listing).filename == state.filename,
{
    lemma_page_count_bounds(listing.len(), PER_PAGE as nat);
}

/// A dialog that has ended stays as it is, and asks for nothing more: there
/// is one outcome, and it is announced once, by the intent that ends the
/// dialog.
pub proof fn lemma_ended_is_final(state: DialogView, intent: IntentView)
    ensures
        state.terminated() ==> state.step(intent) == state,
        state.terminated() ==> state.effect(intent) == EffectView::Nothing,
        state.effect(intent) is Finished <==> !state.terminated() && state.step(
            intent,
        ).terminated(),
        state.effect(intent) matches EffectView::Finished(outcome) ==> state.step(intent).outcome
            == Some(outcome),
{
}

/// Turning pages changes the page shown and nothing else: what is
/// highlighted stays highlighted. At the first page there is no going back,
/// at the last no going on.
pub proof fn lemma_paging_changes_the_page_only(state: DialogView)
    requires
        state.wf(),
    ensures
        state.next_page() == (DialogView { pages: state.next_page().pages, ..state }),
        state.prev_page() == (DialogView { pages: state.prev_page().pages, ..state }),
        1 <= state.next_page().pages.current <= state.pages.count(),
        1 <= state.prev_page().pages.current <= state.pages.count(),
        state.pages.current == 1 ==> state.prev_page() == state,
        state.pages.current == state.pages.count() ==> state.next_page() == state,
{
}

/// The first activation of an entry highlights it and ends nothing. The
/// second, straight after, confirms it: a file that can be chosen ends the
/// dialog with its path, anything else is gone into.
pub proof fn lemma_second_activation_confirms(state: DialogView, index: nat)
    requires
        state.wf(),
        state.accepts(index),
        state.selected != Some(index),
    ensures
        state.activated(index) == (DialogView { selected: Some(index), ..state }),
        state.effect(IntentView::Activate(index)) == EffectView::Nothing,
        state.picks(index) ==> state.activated(index).activated(index) == state.activated(
            index,
        ).ended(OutcomeView::Selected(state.listing[index as int].path)),
        state.picks(index) ==> state.activated(index).effect(IntentView::Activate(index))
            == EffectView::Finished(OutcomeView::Selected(state.listing[index as int].path)),
        !state.picks(index) ==> state.activated(index).activated(index) == state.activated(index),
        !state.picks(index) ==> state.activated(index).effect(IntentView::Activate(index))
            == EffectView::ReadDirectory(state.listing[index as int].path),
{
}

/// A dialog that chooses folders lists no files, so that confirming an entry
/// there always goes into it.
pub proof fn lemma_folders_are_gone_into(state: DialogView, index: nat)
    requires
        state.wf(),
        state.mode == Mode::OpenFolder,
        index < state.listing.len(),
    ensures
        state.listing[index as int].is_dir,
        !state.picks(index),
{
}

/// Saving without a file name changes nothing; with one, a dialog that
/// saves and has not ended ends with that name seen from the directory
/// shown.
pub proof fn lemma_save_needs_a_name(state: DialogView)
    ensures
        state.filename.len() == 0 ==> state.saved() == state,
        state.filename.len() == 0 ==> state.effect(IntentView::ConfirmSave) == EffectView::Nothing,
        state.filename.len() > 0 && state.mode == Mode::SaveFile && !state.terminated()
            ==> state.effect(IntentView::ConfirmSave) == EffectView::Finished(
            OutcomeView::Selected(spec_join(state.dir, state.filename)),
        ),
{
}

/// Cancelling a dialog that has not ended ends it with nothing chosen. That
/// outcome, written to the empty slot, is what the caller's first take hands
/// out, and no take after it.
pub proof fn lemma_cancel_is_delivered_once(state: DialogView)
    requires
        !state.terminated(),
    ensures
        state.cancelled().outcome == Some(OutcomeView::Cancelled),
        state.effect(IntentView::Cancel) == EffectView::Finished(OutcomeView::Cancelled),
        Slot::Empty.written(OutcomeView::Cancelled).peek() == DeliveryView::Ready(
            OutcomeView::Cancelled,
        ),
        Slot::Empty.written(OutcomeView::Cancelled).taken().peek() == DeliveryView::Consumed,
{
    lemma_outcome_is_delivered_once(OutcomeView::Cancelled);
}

/// The state of one dialog.
#[derive(Clone, Debug, PartialEq, Eq)]
pub struct DialogState {
    dir: String,
    listing: Vec<Entry>,
    selection: SelectionState,
    paginator: Paginator,
    filename: String,
    mode: Mode,
    filter_hidden: bool,
    dir_changed: bool,
    background: Rgba,
    outcome: Option<Outcome>,
}

impl View for DialogState {
    type V = DialogView;

    closed spec fn view(&self) -> DialogView {
        DialogView {
            dir: self.dir@,
            listing: views(self.listing@),
            selected: self.selection@,
            pages: self.paginator@,
            filename: self.filename@,
            mode: self.mode,
            filter_hidden: self.filter_hidden,
            dir_changed: self.dir_changed,
            background: self.background,
            outcome: match self.outcome {
                Some(outcome) => Some(outcome@),
                None => None,
            },
        }
    }
}

impl DialogState {
    /// The state is well formed, and so is what it stands for.
    pub closed spec fn wf(&self) -> bool {
        &&& self.paginator.wf()
        &&& self@.wf()
    }

    /// A well-formed state stands for a well-formed view, with a listing
    /// that a machine can hold.
    pub proof fn lemma_wf(&self)
        requires
            self.wf(),
        ensures
            self@.wf(),
            self@.listing.len() <= usize::MAX,
            self@.pages.count() <= usize::MAX,
    {
        self.paginator.lemma_wf();
    }

    /// The state of a dialog that starts in `dir`, before `dir` was read.
    pub fn new(
        dir: String,
        mode: Mode,
        filter_hidden: bool,
        filename: String,
        background: Rgba,
    ) -> (state: DialogState)
        ensures
            state.wf(),
            state@ == DialogView::initial(dir@, mode, filter_hidden, filename@, background),
    {
        let state = DialogState {
            dir,
            listing: Vec::new(),
            selection: SelectionState::new(),
            paginator: Paginator::new(0, PER_PAGE),
            filename,
            mode,
            filter_hidden,
            dir_changed: true,
            background,
            outcome: None,
        };
        assert(views(state.listing@) =~= Seq::<EntryView>::empty());
        state
    }

    /// The directory shown.
    pub fn dir(&self) -> (dir: &String)
        ensures
            dir@ == self@.dir,
    {
        &self.dir
    }

    /// What is shown of the directory.
    pub fn listing(&self) -> (listing: &Vec<Entry>)
        ensures
            views(listing@) == self@.listing,
    {
        &self.listing
    }

    /// Index in the listing of the highlighted entry.
    pub fn selected(&self) -> (index: Option<usize>)
        ensures
            match index {
                Some(i) => self@.selected == Some(i as nat),
                None => self@.selected is None,
            },
    {
        self.selection.highlighted()
    }

    /// The paging of the listing.
    pub fn paginator(&self) -> (paginator: &Paginator)
        ensures
            paginator@ == self@.pages,
            self.wf() ==> paginator.wf(),
    {
        &self.paginator
    }

    /// Number of pages of the listing.
    pub fn pages(&self) -> (pages: usize)
        requires
            self.wf(),
        ensures
            pages == self@.pages.count(),
            pages >= 1,
    {
        self.paginator.pages()
    }

    /// The page shown, counted from 1.
    pub fn cur_page(&self) -> (page: usize)
        requires
            self.wf(),
        ensures
            page == self@.pages.current,
            1 <= page <= self@.pages.count(),
    {
        self.paginator.current()
    }

    /// The file name to save to, as edited so far.
    pub fn filename(&self) -> (filename: &String)
        ensures
            filename@ == self@.filename,
    {
        &self.filename
    }

    /// The kind of choice.
    pub fn mode(&self) -> (mode: Mode)
        ensures
            mode == self@.mode,
    {
        self.mode
    }

    /// Whether entries whose name starts with a dot are left out.
    pub fn filter_hidden(&self) -> (filtered: bool)
        ensures
            filtered == self@.filter_hidden,
    {
        self.filter_hidden
    }

    /// The colour behind the dialog.
    pub fn background(&self) -> (color: Rgba)
        ensures
            color == self@.background,
    {
        self.background
    }

    /// Whether the dialog has ended.
    pub fn is_terminated(&self) -> (ended: bool)
        ensures
            ended == self@.terminated(),
    {
        self.outcome.is_some()
    }

    /// How the dialog ended, once it has.
    pub fn outcome(&self) -> (outcome: Option<Outcome>)
        ensures
            match outcome {
                Some(o) => self@.outcome == Some(o@),
                None => self@.outcome is None,
            },
    {
        match &self.outcome {
            Some(outcome) => Some(outcome.duplicate()),
            None => None,
        }
    }

    /// Whether the directory has changed since this was last asked. Asking
    /// clears the mark.
    pub fn take_dir_changed(&mut self) -> (changed: bool)
        requires
            old(self).wf(),
        ensures
            final(self).wf(),
            changed == old(self)@.dir_changed,
            final(self)@ == (DialogView { dir_changed: false, ..old(self)@ }),
    {
        let changed = self.dir_changed;
        self.dir_changed = false;
        changed
    }

    /// A click on the entry at `index` of the listing. The first highlights
    /// the entry. A second one on the highlighted entry confirms it: a file
    /// that can be chosen ends the dialog, anything else is a directory to
    /// read. An index beyond the listing is ignored.
    pub fn activate(&mut self, index: usize) -> (effect: Effect)
        requires
            old(self).wf(),
        ensures
            final(self).wf(),
            final(self)@ == old(self)@.activated(index as nat),
            effect@ == old(self)@.effect(IntentView::Activate(index as nat)),
    {
        if self.outcome.is_some() || index >= self.listing.len() {
            return Effect::Nothing;
        }
        match self.selection.activate(index) {
            Activation::Highlighted => Effect::Nothing,
            Activation::Confirmed => {
                let entry = &self.listing[index];
                if self.mode.show_files() && !entry.is_dir {
                    let path = entry.path.clone();
                    self.outcome = Some(Outcome::Selected(entry.path.clone()));
                    Effect::Finished(Outcome::Selected(path))
                } else {
                    Effect::ReadDirectory(entry.path.clone())
                }
            },
        }
    }

    /// Asks for the directory above the one shown. At the root there is
    /// none, and nothing is asked for.
    pub fn navigate_up(&self) -> (effect: Effect)
        requires
            self.wf(),
        ensures
            effect@ == self@.effect(IntentView::NavigateUp),
    {
        if self.outcome.is_some() {
            return Effect::Nothing;
        }
        match parent(self.dir.as_str()) {
            Some(up) => Effect::ReadDirectory(up),
            None => Effect::Nothing,
        }
    }

    /// Takes in what came of reading `path`. Where it was read as a
    /// directory, the dialog shows it: `path` is the directory, the listing
    /// is what the mode and the filter let through of its entries, in order,
    /// on its first page, with nothing highlighted. Where it was not, or the
    /// dialog has ended, the state stays exactly as it was.
    pub fn navigate(&mut self, path: String, reading: DirReading)
        requires
            old(self).wf(),
        ensures
            final(self).wf(),
            old(self)@.terminated() || !(reading is Listed) ==> final(self)@ == old(self)@,
            !old(self)@.terminated() && reading is Listed ==> {
                &&& final(self)@ == old(self)@.entered(path@, final(self)@.listing)
                &&& is_listing_of(
                    final(self)@.listing,
                    views(reading->Listed_0@),
                    old(self)@.mode,
                    old(self)@.filter_hidden,
                )
            },
    {
        if self.outcome.is_some() {
            return ;
        }
        match reading {
            DirReading::Listed(raw) => {
                let listing = list(raw, self.mode, self.filter_hidden);
                proof {
                    lemma_page_count_bounds(listing.len() as nat, PER_PAGE as nat);
                }
                self.paginator = Paginator::new(listing.len(), PER_PAGE);
                self.listing = listing;
                self.dir = path;
                self.selection.clear();
                self.dir_changed = true;
            },
            _ => {},
        }
    }

    /// Shows the next page; on the last page nothing changes. What is
    /// highlighted stays highlighted.
    pub fn next_page(&mut self)
        requires
            old(self).wf(),
        ensures
            final(self).wf(),
            final(self)@ == old(self)@.next_page(),
    {
        if self.outcome.is_none() {
            self.paginator.next_page();
        }
    }

    /// Shows the previous page; on the first page nothing changes. What is
    /// highlighted stays highlighted.
    pub fn prev_page(&mut self)
        requires
            old(self).wf(),
        ensures
            final(self).wf(),
            final(self)@ == old(self)@.prev_page(),
    {
        if self.outcome.is_none() {
            self.paginator.prev_page();
        }
    }

    /// Replaces the file name to save to by `text`, as it stands. A dialog
    /// that does not save has no file name to edit.
    pub fn edit_filename(&mut self, text: String)
        requires
            old(self).wf(),
        ensures
            final(self).wf(),
            final(self)@ == old(self)@.edited(text@),
    {
        if self.outcome.is_none() && self.mode == Mode::SaveFile {
            self.filename = text;
        }
    }

    /// Confirms saving: ends the dialog with the file name seen from the
    /// directory shown. Without a file name, or in a dialog that does not
    /// save, nothing happens. Whether such a file exists is not looked at.
    pub fn confirm_save(&mut self) -> (effect: Effect)
        requires
            old(self).wf(),
        ensures
            final(self).wf(),
            final(self)@ == old(self)@.saved(),
            effect@ == old(self)@.effect(IntentView::ConfirmSave),
    {
        let named = self.filename.as_str().unicode_len() > 0;
        if self.outcome.is_none() && self.mode == Mode::SaveFile && named {
            let target = join(self.dir.as_str(), self.filename.as_str());
            self.outcome = Some(Outcome::Selected(target.clone()));
            Effect::Finished(Outcome::Selected(target))
        } else {
            Effect::Nothing
        }
    }

    /// Confirms the folder: ends the dialog with the directory shown,
    /// whatever is highlighted. In a dialog that does not choose folders
    /// nothing happens.
    pub fn confirm_folder(&mut self) -> (effect: Effect)
        requires
            old(self).wf(),
        ensures
            final(self).wf(),
            final(self)@ == old(self)@.folder_confirmed(),
            effect@ == old(self)@.effect(IntentView::ConfirmFolder),
    {
        if self.outcome.is_none() && self.mode == Mode::OpenFolder {
            self.outcome = Some(Outcome::Selected(self.dir.clone()));
            Effect::Finished(Outcome::Selected(self.dir.clone()))
        } else {
            Effect::Nothing
        }
    }

    /// Ends the dialog with nothing chosen. This is also what closing the
    /// dialog's window comes to.
    pub fn cancel(&mut self) -> (effect: Effect)
        requires
            old(self).wf(),
        ensures
            final(self).wf(),
            final(self)@ == old(self)@.cancelled(),
            effect@ == old(self)@.effect(IntentView::Cancel),
    {
        if self.outcome.is_none() {
            self.outcome = Some(Outcome::Cancelled);
            Effect::Finished(Outcome::Cancelled)
        } else {
            Effect::Nothing
        }
    }

    /// Applies one intent, and says what is to be done after it.
    pub fn apply(&mut self, intent: Intent) -> (effect: Effect)
        requires
            old(self).wf(),
        ensures
            final(self).wf(),
            final(self)@ == old(self)@.step(intent@),
            effect@ == old(self)@.effect(intent@),
    {
        match intent {
            Intent::Activate(index) => self.activate(index),
            Intent::NavigateUp => self.navigate_up(),
            Intent::Navigate(path) => {
                if self.outcome.is_some() {
                    Effect::Nothing
                } else {
                    Effect::ReadDirectory(path)
                }
            },
            Intent::NextPage => {
                self.next_page();
                Effect::Nothing
            },
            Intent::PrevPage => {
                self.prev_page();
                Effect::Nothing
            },
            Intent::EditFilename(text) => {
                self.edit_filename(text);
                Effect::Nothing
            },
            Intent::ConfirmSave => self.confirm_save(),
            Intent::ConfirmFolder => self.confirm_folder(),
            Intent::Cancel => self.cancel(),
        }
    }
}

} // verus!
