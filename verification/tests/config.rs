use file_dialog::color::Rgba;
use file_dialog::config::{
    default_path, ConfigError, FileDialog, DEFAULT_HEIGHT, DEFAULT_SAMPLES, DEFAULT_WIDTH,
};
use file_dialog::select::{Mode, SelectType};

fn some(text: &str) -> Option<String> {
    Some(text.to_string())
}

fn dialog_at_home(title: &str) -> FileDialog {
    FileDialog::new(title.to_string(), some("/home/user"), some("/work")).unwrap()
}

#[test]
fn defaults_are_as_documented() {
    assert_eq!(DEFAULT_WIDTH, 640);
    assert_eq!(DEFAULT_HEIGHT, 480);
    assert_eq!(DEFAULT_SAMPLES, 4);
    assert_eq!(Rgba::light_grey(), Rgba::new(230, 230, 230, 255));
    let (dialog, window) = dialog_at_home("File Dialog Test").show();
    assert_eq!(window.title, "File Dialog Test");
    assert_eq!(window.width, 640);
    assert_eq!(window.height, 480);
    assert_eq!(window.samples, 4);
    assert!(!window.fullscreen);
    assert!(window.exit_on_esc);
    assert_eq!(dialog.background, Rgba::light_grey());
    assert_eq!(dialog.select, SelectType::File);
    assert_eq!(dialog.starting_path, "/home/user");
    assert!(dialog.filter_hidden);
}

#[test]
fn starting_path_is_home_if_known() {
    assert_eq!(default_path(some("/home/user"), some("/work")), Ok("/home/user".to_string()));
    assert_eq!(default_path(some("/home/user"), None), Ok("/home/user".to_string()));
}

#[test]
fn starting_path_falls_back_to_the_working_directory() {
    assert_eq!(default_path(None, some("/work")), Ok("/work".to_string()));
    assert_eq!(default_path(some(""), some("/work")), Ok("/work".to_string()));
    let (dialog, _) = FileDialog::new("t".to_string(), None, some("/work")).unwrap().show();
    assert_eq!(dialog.starting_path, "/work");
}

#[test]
fn no_starting_path_is_an_error() {
    assert_eq!(default_path(None, None), Err(ConfigError::NoStartingPath));
    assert_eq!(default_path(some(""), None), Err(ConfigError::NoStartingPath));
    assert_eq!(default_path(None, some("")), Err(ConfigError::NoStartingPath));
    assert_eq!(default_path(some(""), some("")), Err(ConfigError::NoStartingPath));
    assert_eq!(
        FileDialog::new("t".to_string(), None, None).err(),
        Some(ConfigError::NoStartingPath)
    );
}

#[test]
fn setters_change_one_setting_each() {
    let (dialog, window) = dialog_at_home("t")
        .width(800)
        .height(600)
        .set_samples(8)
        .set_background(Rgba::new(1, 2, 3, 4))
        .set_select(SelectType::Folder)
        .set_starting_path("/srv".to_string())
        .set_filter_hidden(false)
        .show();
    assert_eq!(window.title, "t");
    assert_eq!((window.width, window.height), (800, 600));
    assert_eq!(window.samples, 8);
    assert!(!window.fullscreen);
    assert!(window.exit_on_esc);
    assert_eq!(dialog.background, Rgba::new(1, 2, 3, 4));
    assert_eq!(dialog.select, SelectType::Folder);
    assert_eq!(dialog.starting_path, "/srv");
    assert!(!dialog.filter_hidden);
}

#[test]
fn width_and_height_are_set_apart() {
    let (_, window) = dialog_at_home("t").width(1).show();
    assert_eq!((window.width, window.height), (1, 480));
    let (_, window) = dialog_at_home("t").height(2).show();
    assert_eq!((window.width, window.height), (640, 2));
}

#[test]
fn dimensions_sets_both() {
    let (_, window) = dialog_at_home("t").width(1).dimensions(1024, 768).show();
    assert_eq!((window.width, window.height), (1024, 768));
}

#[test]
fn later_setting_wins() {
    let (dialog, window) = dialog_at_home("t")
        .set_samples(2)
        .set_samples(16)
        .set_filter_hidden(false)
        .set_filter_hidden(true)
        .show();
    assert_eq!(window.samples, 16);
    assert!(dialog.filter_hidden);
}

#[test]
fn state_starts_in_the_starting_directory() {
    let (dialog, _) = dialog_at_home("t").show();
    let state = dialog.into_state();
    assert_eq!(state.dir(), "/home/user");
    assert_eq!(state.mode(), Mode::OpenFile);
    assert!(state.filter_hidden());
    assert!(state.listing().is_empty());
    assert_eq!(state.pages(), 1);
    assert_eq!(state.cur_page(), 1);
    assert_eq!(state.selected(), None);
    assert_eq!(state.filename(), "");
    assert!(!state.is_terminated());
}

#[test]
fn proposed_file_name_becomes_the_file_name_to_edit() {
    let (dialog, _) = dialog_at_home("File Save Test")
        .set_select(SelectType::SaveFile(some("filename.txt")))
        .show();
    let state = dialog.into_state();
    assert_eq!(state.mode(), Mode::SaveFile);
    assert_eq!(state.filename(), "filename.txt");
}

#[test]
fn without_a_proposed_name_the_file_name_is_empty() {
    let (dialog, _) = dialog_at_home("t").set_select(SelectType::SaveFile(None)).show();
    let state = dialog.into_state();
    assert_eq!(state.mode(), Mode::SaveFile);
    assert_eq!(state.filename(), "");
}

#[test]
fn state_takes_mode_filter_and_background_from_the_settings() {
    let (dialog, _) = dialog_at_home("t")
        .set_select(SelectType::Folder)
        .set_filter_hidden(false)
        .set_background(Rgba::new(9, 8, 7, 6))
        .show();
    let state = dialog.into_state();
    assert_eq!(state.mode(), Mode::OpenFolder);
    assert!(!state.filter_hidden());
    assert_eq!(state.background(), Rgba::new(9, 8, 7, 6));
}

#[test]
fn select_type_knows_its_mode() {
    assert_eq!(SelectType::File.mode(), Mode::OpenFile);
    assert_eq!(SelectType::Folder.mode(), Mode::OpenFolder);
    assert_eq!(SelectType::SaveFile(None).mode(), Mode::SaveFile);
    assert_eq!(SelectType::SaveFile(some("a")).mode(), Mode::SaveFile);
}

#[test]
fn files_are_shown_unless_a_folder_is_chosen() {
    assert!(SelectType::File.show_files());
    assert!(SelectType::SaveFile(None).show_files());
    assert!(SelectType::SaveFile(some("a")).show_files());
    assert!(!SelectType::Folder.show_files());
    assert!(Mode::OpenFile.show_files());
    assert!(Mode::SaveFile.show_files());
    assert!(!Mode::OpenFolder.show_files());
}

#[test]
fn select_type_gives_its_proposed_name() {
    assert_eq!(SelectType::SaveFile(some("a.txt")).default_name(), "a.txt");
    assert_eq!(SelectType::SaveFile(None).default_name(), "");
    assert_eq!(SelectType::File.default_name(), "");
    assert_eq!(SelectType::Folder.default_name(), "");
    assert_eq!(SelectType::SaveFile(some("a")).duplicate(), SelectType::SaveFile(some("a")));
    assert_eq!(SelectType::Folder.duplicate(), SelectType::Folder);
}

#[test]
fn dialog_and_select_type_are_found_at_the_root() {
    let dialog = file_dialog::FileDialog::new("t".to_string(), some("/home/user"), None)
        .unwrap()
        .set_select(file_dialog::SelectType::Folder);
    let (settings, _) = dialog.show();
    assert_eq!(settings.select, SelectType::Folder);
}
