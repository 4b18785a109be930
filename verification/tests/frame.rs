use file_dialog::color::Rgba;
use file_dialog::dialog::{DialogState, DirReading, Intent};
use file_dialog::frame::{frame, ConfirmLabel, Detail};
use file_dialog::listing::Entry;
use file_dialog::select::Mode;

fn shown(mode: Mode, entries: Vec<Entry>) -> DialogState {
    let mut state =
        DialogState::new("/start".to_string(), mode, true, String::new(), Rgba::new(1, 2, 3, 4));
    state.navigate("/d".to_string(), DirReading::Listed(entries));
    state
}

fn mixed() -> Vec<Entry> {
    vec![
        Entry::new("/d/c.txt".to_string(), false),
        Entry::new("/d/a".to_string(), true),
        Entry::new("/d/b.txt".to_string(), false),
    ]
}

fn files(count: usize) -> Vec<Entry> {
    (0..count).map(|i| Entry::new(format!("/d/f{:04}", i), false)).collect()
}

#[test]
fn frame_names_directory_page_and_background() {
    let f = frame(&shown(Mode::OpenFile, mixed()));
    assert_eq!(f.directory, "/d");
    assert_eq!(f.page, "Page: 1 Total: 1");
    assert_eq!(f.background, Rgba::new(1, 2, 3, 4));
}

#[test]
fn cells_show_the_names_of_the_entries() {
    let f = frame(&shown(Mode::OpenFile, mixed()));
    let labels: Vec<&str> = f.cells.iter().map(|c| c.label.as_str()).collect();
    assert_eq!(labels, vec!["a", "b.txt", "c.txt"]);
    let indexes: Vec<usize> = f.cells.iter().map(|c| c.index).collect();
    assert_eq!(indexes, vec![0, 1, 2]);
    assert!(f.cells.iter().all(|c| !c.highlighted));
}

#[test]
fn empty_listing_has_no_cells() {
    let f = frame(&shown(Mode::OpenFile, Vec::new()));
    assert!(f.cells.is_empty());
    assert_eq!(f.page, "Page: 1 Total: 1");
    assert_eq!(f.cell_at(0, 0), None);
}

#[test]
fn long_names_are_cut_to_the_limit() {
    let long = "/d/abcdefghijklmnopqrstuvwxyz0123456789.txt";
    let exact = "/d/ABCDEFGHIJKLMNOPQRSTUVWX";
    let f = frame(&shown(
        Mode::OpenFile,
        vec![Entry::new(long.to_string(), false), Entry::new(exact.to_string(), false)],
    ));
    assert_eq!(f.cells[0].label, "ABCDEFGHIJKLMNOPQRSTUVWX");
    assert_eq!(f.cells[1].label, "abcdefghijklmnopqrstuvwx");
    assert_eq!(f.cells[1].label.chars().count(), 24);
}

#[test]
fn highlighted_cell_is_marked() {
    let mut state = shown(Mode::OpenFile, mixed());
    state.activate(1);
    let f = frame(&state);
    let marks: Vec<bool> = f.cells.iter().map(|c| c.highlighted).collect();
    assert_eq!(marks, vec![false, true, false]);
}

#[test]
fn each_page_shows_its_slice_of_the_listing() {
    let mut state = shown(Mode::OpenFile, files(81));
    let first = frame(&state);
    assert_eq!(first.page, "Page: 1 Total: 3");
    assert_eq!(first.cells.len(), 40);
    assert_eq!(first.cells[0].index, 0);
    assert_eq!(first.cells[0].label, "f0000");
    assert_eq!(first.cells[39].index, 39);
    state.next_page();
    let second = frame(&state);
    assert_eq!(second.page, "Page: 2 Total: 3");
    assert_eq!(second.cells.len(), 40);
    assert_eq!(second.cells[0].index, 40);
    assert_eq!(second.cells[0].label, "f0040");
    assert_eq!(second.cells[39].index, 79);
    state.next_page();
    let third = frame(&state);
    assert_eq!(third.page, "Page: 3 Total: 3");
    assert_eq!(third.cells.len(), 1);
    assert_eq!(third.cells[0].index, 80);
    assert_eq!(third.cells[0].label, "f0080");
}

#[test]
fn highlight_is_marked_only_on_its_page() {
    let mut state = shown(Mode::OpenFile, files(81));
    state.activate(41);
    assert!(frame(&state).cells.iter().all(|c| !c.highlighted));
    state.next_page();
    let f = frame(&state);
    assert!(f.cells[1].highlighted);
    assert_eq!(f.cells.iter().filter(|c| c.highlighted).count(), 1);
}

#[test]
fn click_on_a_cell_activates_its_entry() {
    let mut state = shown(Mode::OpenFile, files(81));
    state.next_page();
    let f = frame(&state);
    let cell = f.cell_at(2, 1).unwrap();
    assert_eq!(cell.index, 47);
    state.apply(Intent::Activate(cell.index));
    assert_eq!(state.selected(), Some(47));
    assert!(frame(&state).cell_at(2, 1).unwrap().highlighted);
}

#[test]
fn cells_fill_the_grid_row_by_row() {
    let f = frame(&shown(Mode::OpenFile, files(81)));
    assert_eq!(f.cell_at(0, 0).unwrap().index, 0);
    assert_eq!(f.cell_at(4, 0).unwrap().index, 4);
    assert_eq!(f.cell_at(0, 1).unwrap().index, 5);
    assert_eq!(f.cell_at(3, 2).unwrap().index, 13);
    assert_eq!(f.cell_at(4, 7).unwrap().index, 39);
}

#[test]
fn no_cell_outside_the_grid_or_behind_the_last_entry() {
    let f = frame(&shown(Mode::OpenFile, files(7)));
    assert_eq!(f.cell_at(5, 0), None);
    assert_eq!(f.cell_at(0, 8), None);
    assert_eq!(f.cell_at(usize::MAX, usize::MAX), None);
    assert_eq!(f.cell_at(1, 1).unwrap().index, 6);
    assert_eq!(f.cell_at(2, 1), None);
    assert_eq!(f.cell_at(0, 2), None);
}

#[test]
fn open_dialog_without_highlight_has_a_dead_open_button() {
    let f = frame(&shown(Mode::OpenFile, mixed()));
    assert_eq!(f.confirm_label, ConfirmLabel::Open);
    assert_eq!(f.confirm, None);
    assert_eq!(f.detail, Detail::Nothing);
}

#[test]
fn open_dialog_with_highlight_opens_the_entry() {
    let mut state = shown(Mode::OpenFile, mixed());
    state.activate(2);
    let f = frame(&state);
    assert_eq!(f.confirm_label, ConfirmLabel::Open);
    assert_eq!(f.confirm, Some(Intent::Activate(2)));
    assert_eq!(f.detail, Detail::SelectedLabel("Selected: c.txt".to_string()));
}

#[test]
fn folder_dialog_without_highlight_selects_the_folder() {
    let f = frame(&shown(Mode::OpenFolder, mixed()));
    assert_eq!(f.confirm_label, ConfirmLabel::SelectFolder);
    assert_eq!(f.confirm, Some(Intent::ConfirmFolder));
    assert_eq!(f.detail, Detail::Nothing);
}

#[test]
fn folder_dialog_with_highlight_opens_the_entry() {
    let mut state = shown(Mode::OpenFolder, mixed());
    state.activate(0);
    let f = frame(&state);
    assert_eq!(f.confirm_label, ConfirmLabel::Open);
    assert_eq!(f.confirm, Some(Intent::Activate(0)));
    assert_eq!(f.detail, Detail::SelectedLabel("Selected: a".to_string()));
}

#[test]
fn save_dialog_without_a_name_has_a_dead_save_button() {
    let f = frame(&shown(Mode::SaveFile, mixed()));
    assert_eq!(f.confirm_label, ConfirmLabel::Save);
    assert_eq!(f.confirm, None);
    assert_eq!(f.detail, Detail::FilenameBox(String::new()));
}

#[test]
fn save_dialog_with_a_name_saves() {
    let mut state = shown(Mode::SaveFile, mixed());
    state.edit_filename("out.txt".to_string());
    let f = frame(&state);
    assert_eq!(f.confirm_label, ConfirmLabel::Save);
    assert_eq!(f.confirm, Some(Intent::ConfirmSave));
    assert_eq!(f.detail, Detail::FilenameBox("out.txt".to_string()));
}

#[test]
fn save_dialog_with_a_file_highlighted_saves_to_it() {
    let mut state = shown(Mode::SaveFile, mixed());
    state.edit_filename("out.txt".to_string());
    state.activate(1);
    let f = frame(&state);
    assert_eq!(f.confirm_label, ConfirmLabel::Save);
    assert_eq!(f.confirm, Some(Intent::Activate(1)));
    assert_eq!(f.detail, Detail::FilenameBox("out.txt".to_string()));
}

#[test]
fn save_dialog_with_a_directory_highlighted_opens_it() {
    let mut state = shown(Mode::SaveFile, mixed());
    state.activate(0);
    let f = frame(&state);
    assert_eq!(f.confirm_label, ConfirmLabel::Open);
    assert_eq!(f.confirm, Some(Intent::Activate(0)));
}

#[test]
fn click_on_the_live_confirm_button_is_never_lost() {
    for mode in [Mode::OpenFile, Mode::OpenFolder, Mode::SaveFile] {
        for highlight in [None, Some(0), Some(1)] {
            let mut state = shown(mode, mixed());
            state.edit_filename("n".to_string());
            if let Some(index) = highlight {
                state.activate(index);
            }
            if let Some(intent) = frame(&state).confirm {
                assert_ne!(state.apply(intent), file_dialog::dialog::Effect::Nothing);
            }
        }
    }
}

#[test]
fn confirm_labels_read_as_on_the_buttons() {
    assert_eq!(ConfirmLabel::Open.text(), "Open");
    assert_eq!(ConfirmLabel::Save.text(), "Save");
    assert_eq!(ConfirmLabel::SelectFolder.text(), "Select Folder");
}
