//! What is to be drawn of a dialog: a description of the controls, made
//! from the state and from nothing else.
//!
//! Where a control sits and what it looks like is up to whoever draws it.
//! What it says, whether it is there, and what a click on it means is said
//! here.

use crate::color::Rgba;
use crate::dialog::{DialogState, DialogView, EffectView, Intent, IntentView};
use crate::listing::views;
use crate::paginator::{lemma_pages_tile_the_listing, COLS, ROWS};
use crate::paths::{file_name, spec_file_name};
use crate::select::Mode;
use crate::text::{
    clip, page_label, selected_label, spec_clip, spec_page_label, spec_selected_label, CHAR_LIMIT,
};
use vstd::prelude::*;

verus! {

/// What the button that confirms says.
#[derive(Clone, Copy, Debug, PartialEq, Eq, Structural)]
pub enum ConfirmLabel {
    Open,
    Save,
    SelectFolder,
}

impl ConfirmLabel {
    /// The words on the button.
    pub open spec fn spec_text(self) -> Seq<char> {
        match self {
            ConfirmLabel::Open => "Open"@,
            ConfirmLabel::Save => "Save"@,
            ConfirmLabel::SelectFolder => "Select Folder"@,
        }
    }

    /// The words on the button.
    pub fn text(self) -> (text: &'static str)
        ensures
            text@ == self.spec_text(),
    {
        match self {
            ConfirmLabel::Open => "Open",
            ConfirmLabel::Save => "Save",
            ConfirmLabel::SelectFolder => "Select Folder",
        }
    }
}

/// One cell of the grid: an entry of the page shown.
#[derive(Clone, Debug, PartialEq, Eq)]
pub struct Cell {
    /// Index of the entry in the listing: a click on the cell activates it.
    pub index: usize,
    /// The entry's name, cut to fit.
    pub label: String,
    /// Whether the entry is the highlighted one.
    pub highlighted: bool,
}

/// What a `Cell` stands for.
pub struct CellView {
    pub index: nat,
    pub label: Seq<char>,
    pub highlighted: bool,
}

impl View for Cell {
    type V = CellView;

    open spec fn view(&self) -> CellView {
        CellView { index: self.index as nat, label: self.label@, highlighted: self.highlighted }
    }
}

/// What is shown beside the buttons.
#[derive(Clone, Debug, PartialEq, Eq)]
pub enum Detail {
    /// A box in which the file name to save to is edited, with the name as
    /// it stands.
    FilenameBox(String),
    /// A line that names the highlighted entry.
    SelectedLabel(String),
    /// Nothing.
    Nothing,
}

/// What a `Detail` stands for.
pub enum DetailView {
    FilenameBox(Seq<char>),
    SelectedLabel(Seq<char>),
    Nothing,
}

impl View for Detail {
    type V = DetailView;

    open spec fn view(&self) -> DetailView {
        match self {
            Detail::FilenameBox(name) => DetailView::FilenameBox(name@),
            Detail::SelectedLabel(line) => DetailView::SelectedLabel(line@),
            Detail::Nothing => DetailView::Nothing,
        }
    }
}

/// The controls of a dialog, as they are to be drawn.
#[derive(Clone, Debug, PartialEq, Eq)]
pub struct Frame {
    /// The colour behind everything.
    pub background: Rgba,
    /// The line that names the directory shown.
    pub directory: String,
    /// The line that tells the page shown and the number of pages.
    pub page: String,
    /// The entries of the page shown, row by row.
    pub cells: Vec<Cell>,
    /// What the button that confirms says.
    pub confirm_label: ConfirmLabel,
    /// What a click on the button that confirms means; nothing, where the
    /// button is dead.
    pub confirm: Option<Intent>,
    /// What is shown beside the buttons.
    pub detail: Detail,
}

/// What a `Frame` stands for.
pub struct FrameView {
    pub background: Rgba,
    pub directory: Seq<char>,
    pub page: Seq<char>,
    pub cells: Seq<CellView>,
    pub confirm_label: ConfirmLabel,
    pub confirm: Option<IntentView>,
    pub detail: DetailView,
}

impl View for Frame {
    type V = FrameView;

    open spec fn view(&self) -> FrameView {
        FrameView {
            background: self.background,
            directory: self.directory@,
            page: self.page@,
            cells: self.cells@.map_values(|c: Cell| c@),
            confirm_label: self.confirm_label,
            confirm: match self.confirm {
                Some(intent) => Some(intent@),
                None => None,
            },
            detail: self.detail@,
        }
    }
}

/// The cell for the entry at `index` of the listing: its name, cut to the
/// limit, and whether it is the highlighted one.
pub open spec fn cell_of(state: DialogView, index: nat) -> CellView {
    CellView {
        index,
        label: spec_clip(spec_file_name(state.listing[index as int].path), CHAR_LIMIT as nat),
        highlighted: state.selected == Some(index),
    }
}

/// The cells of the page shown: one for each entry of the listing from the
/// page's start up to its end.
pub open spec fn cells_of(state: DialogView) -> Seq<CellView> {
    Seq::new(
        (state.pages.end() - state.pages.start()) as nat,
        |k: int| cell_of(state, (state.pages.start() + k) as nat),
    )
}

/// What the button that confirms says. With an entry highlighted it acts on
/// the entry: it saves to a file where the dialog saves, and opens anything
/// else. With none it chooses the folder, or saves, or has nothing to open.
pub open spec fn confirm_label_of(state: DialogView) -> ConfirmLabel {
    match state.selected {
        Some(index) => if state.mode == Mode::SaveFile && !state.listing[index as int].is_dir {
            ConfirmLabel::Save
        } else {
            ConfirmLabel::Open
        },
        None => match state.mode {
            Mode::OpenFolder => ConfirmLabel::SelectFolder,
            Mode::SaveFile => ConfirmLabel::Save,
            Mode::OpenFile => ConfirmLabel::Open,
        },
    }
}

/// What a click on the button that confirms means. With an entry
/// highlighted it activates the entry once more. With none it chooses the
/// folder shown, or saves if there is a file name to save to; else the button
/// is dead.
pub open spec fn confirm_of(state: DialogView) -> Option<IntentView> {
    match state.selected {
        Some(index) => Some(IntentView::Activate(index)),
        None => match state.mode {
            Mode::OpenFolder => Some(IntentView::ConfirmFolder),
            Mode::SaveFile => if state.filename.len() > 0 {
                Some(IntentView::ConfirmSave)
            } else {
                None
            },
            Mode::OpenFile => None,
        },
    }
}

/// What is shown beside the buttons: the file name to edit where the dialog
/// saves, else the highlighted entry's name if there is one.
pub open spec fn detail_of(state: DialogView) -> DetailView {
    if state.mode == Mode::SaveFile {
        DetailView::FilenameBox(state.filename)
    } else {
        match state.selected {
            Some(index) => DetailView::SelectedLabel(
                spec_selected_label(state.listing[index as int].path),
            ),
            None => DetailView::Nothing,
        }
    }
}

/// What is to be drawn of `state`.
pub open spec fn spec_frame(state: DialogView) -> FrameView {
    FrameView {
        background: state.background,
        directory: state.dir,
        page: spec_page_label(state.pages.current, state.pages.count()),
        cells: cells_of(state),
        confirm_label: confirm_label_of(state),
        confirm: confirm_of(state),
        detail: detail_of(state),
    }
}

/// The grid has room for the page shown. Its cells show consecutive entries
/// of the listing, each entry of the page in one cell, so that a click on a
/// cell activates an entry that is there; and the highlighted entry is
/// marked if and only if it is on the page.
pub proof fn lemma_cells_show_the_page(state: DialogView)
    requires
        state.wf(),
    ensures
        cells_of(state).len() <= COLS * ROWS,
        forall|k: int|
            0 <= k < cells_of(state).len() ==> {
                let cell = #[trigger] cells_of(state)[k];
                &&& cell.index == state.pages.start() + k
                &&& cell.index < state.listing.len()
                &&& state.pages.shows(cell.index)
                &&& cell.highlighted <==> state.selected == Some(cell.index)
            },
        forall|i: nat|
            state.pages.shows(i) ==> {
                let k = i - state.pages.start();
                #[trigger] cell_of(state, i) == cells_of(state)[k]
            },
{
    lemma_pages_tile_the_listing(state.pages);
}

/// As long as the dialog has not ended, a click on the button that confirms
/// is never lost: it ends the dialog or leads into a directory.
pub proof fn lemma_confirm_is_never_idle(state: DialogView)
    requires
        state.wf(),
        !state.terminated(),
        confirm_of(state) is Some,
    ensures
        state.effect(confirm_of(state)->0) != EffectView::Nothing,
        state.selected is None ==> state.effect(confirm_of(state)->0) is Finished,
{
}

/// The cell at a column and a row of the grid, if an entry is shown there.
/// The cells fill the grid row by row.
pub open spec fn spec_cell_at(cells: Seq<CellView>, col: nat, row: nat) -> Option<CellView> {
    if col < COLS && row < ROWS && row * COLS + col < cells.len() {
        Some(cells[row * COLS + col])
    } else {
        None
    }
}

impl Frame {
    /// The cell at a column and a row of the grid, if an entry is shown
    /// there.
    pub fn cell_at(&self, col: usize, row: usize) -> (cell: Option<&Cell>)
        ensures
            match cell {
                Some(c) => spec_cell_at(self@.cells, col as nat, row as nat) == Some(c@),
                None => spec_cell_at(self@.cells, col as nat, row as nat) is None,
            },
    {
        if col < COLS && row < ROWS {
            let at: usize = row * COLS + col;
            if at < self.cells.len() {
                return Some(&self.cells[at]);
            }
        }
        None
    }
}

/// The cells of the page that `state` shows.
fn cells(state: &DialogState) -> (cells: Vec<Cell>)
    requires
        state.wf(),
    ensures
        cells@.map_values(|c: Cell| c@) == cells_of(state@),
{
    proof {
        state.lemma_wf();
        lemma_pages_tile_the_listing(state@.pages);
    }
    let listing = state.listing();
    let start = state.paginator().start();
    let end = state.paginator().end();
    let selected = state.selected();
    let mut cells: Vec<Cell> = Vec::new();
    let mut index: usize = start;
    while index < end
        invariant
            start <= index <= end <= listing.len(),
            start == state@.pages.start(),
            end == state@.pages.end(),
            views(listing@) == state@.listing,
            match selected {
                Some(i) => state@.selected == Some(i as nat),
                None => state@.selected is None,
            },
            cells.len() == index - start,
            forall|k: int|
                0 <= k < cells.len() ==> (#[trigger] cells[k])@ == cell_of(
                    state@,
                    (start + k) as nat,
                ),
        decreases end - index,
    {
        let entry = &listing[index];
        let name = file_name(entry.path.as_str());
        let label = clip(name.as_str(), CHAR_LIMIT);
        let highlighted = match selected {
            Some(i) => i == index,
            None => false,
        };
        cells.push(Cell { index, label, highlighted });
        index = index + 1;
    }
    cells
}

/// Describes what is to be drawn of `state`: the two lines above and below
/// the grid, the cells of the page shown, the button that confirms, and what
/// stands beside it.
pub fn frame(state: &DialogState) -> (frame: Frame)
    requires
        state.wf(),
    ensures
        frame@ == spec_frame(state@),
{
    proof {
        state.lemma_wf();
    }
    let listing = state.listing();
    let selected = state.selected();
    let mode = state.mode();
    let (confirm_label, confirm, detail) = match selected {
        Some(index) => {
            let entry = &listing[index];
            let label = if mode == Mode::SaveFile && !entry.is_dir {
                ConfirmLabel::Save
            } else {
                ConfirmLabel::Open
            };
            let detail = if mode == Mode::SaveFile {
                Detail::FilenameBox(state.filename().clone())
            } else {
                Detail::SelectedLabel(selected_label(entry.path.as_str()))
            };
            (label, Some(Intent::Activate(index)), detail)
        },
        None => match mode {
            Mode::OpenFolder => (
                ConfirmLabel::SelectFolder,
                Some(Intent::ConfirmFolder),
                Detail::Nothing,
            ),
            Mode::SaveFile => {
                let name = state.filename();
                let confirm = if name.as_str().unicode_len() > 0 {
                    Some(Intent::ConfirmSave)
                } else {
                    None
                };
                (ConfirmLabel::Save, confirm, Detail::FilenameBox(name.clone()))
            },
            Mode::OpenFile => (ConfirmLabel::Open, None, Detail::Nothing),
        },
    };
    Frame {
        background: state.background(),
        directory: state.dir().clone(),
        page: page_label(state.cur_page(), state.pages()),
        cells: cells(state),
        confirm_label,
        confirm,
        detail,
    }
}

} // verus!
