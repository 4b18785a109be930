//! What a dialog is set up with, before it is shown.

use crate::color::Rgba;
use crate::dialog::{DialogState, DialogView};
use crate::select::{SelectType, Selecting};
use vstd::prelude::*;

verus! {

/// Width of a dialog's window unless told otherwise.
pub const DEFAULT_WIDTH: u32 = 640;

/// Height of a dialog's window unless told otherwise.
pub const DEFAULT_HEIGHT: u32 = 480;

/// Samples for each pixel unless told otherwise.
pub const DEFAULT_SAMPLES: u8 = 4;

/// Why a dialog could not be set up.
#[derive(Clone, Copy, Debug, PartialEq, Eq, Structural)]
pub enum ConfigError {
    /// Neither the home directory nor the working directory is known, so
    /// that the dialog has no directory to start in.
    NoStartingPath,
}

/// What a path that may be missing stands for.
pub open spec fn text_of(path: Option<String>) -> Option<Seq<char>> {
    match path {
        Some(p) => Some(p@),
        None => None,
    }
}

/// The directory in which a dialog starts unless told otherwise: the home
/// directory, or the working directory where no home directory is known. An
/// empty path counts as unknown.
pub open spec fn spec_default_path(home: Option<Seq<char>>, cwd: Option<Seq<char>>) -> Option<
    Seq<char>,
> {
    if home is Some && home->0.len() > 0 {
        home
    } else if cwd is Some && cwd->0.len() > 0 {
        cwd
    } else {
        None
    }
}

/// Picks the directory in which a dialog starts unless told otherwise.
pub fn default_path(home: Option<String>, cwd: Option<String>) -> (path: Result<
    String,
    ConfigError,
>)
    ensures
        match path {
            Ok(p) => spec_default_path(text_of(home), text_of(cwd)) == Some(p@),
            Err(e) => e == ConfigError::NoStartingPath && spec_default_path(
                text_of(home),
                text_of(cwd),
            ) is None,
        },
{
    if let Some(h) = home {
        if h.as_str().unicode_len() > 0 {
            return Ok(h);
        }
    }
    if let Some(c) = cwd {
        if c.as_str().unicode_len() > 0 {
            return Ok(c);
        }
    }
    Err(ConfigError::NoStartingPath)
}

/// What a window is asked for.
#[derive(Clone, Debug, PartialEq, Eq)]
pub struct WindowSettings {
    pub title: String,
    pub width: u32,
    pub height: u32,
    pub samples: u8,
    pub fullscreen: bool,
    pub exit_on_esc: bool,
}

/// What the state of a dialog is made from.
#[derive(Clone, Debug, PartialEq, Eq)]
pub struct DialogSettings {
    pub background: Rgba,
    pub select: SelectType,
    pub starting_path: String,
    pub filter_hidden: bool,
}

/// What a `FileDialog` stands for.
pub struct FileDialogView {
    pub title: Seq<char>,
    pub width: u32,
    pub height: u32,
    pub samples: u8,
    pub background: Rgba,
    pub select: Selecting,
    pub starting_path: Seq<char>,
    pub filter_hidden: bool,
}

impl FileDialogView {
    /// A dialog as it is unless told otherwise: 640 by 480, 4 samples, light
    /// grey, choosing a file, hidden entries left out.
    pub open spec fn defaults(title: Seq<char>, starting_path: Seq<char>) -> FileDialogView {
        FileDialogView {
            title,
            width: DEFAULT_WIDTH,
            height: DEFAULT_HEIGHT,
            samples: DEFAULT_SAMPLES,
            background: Rgba { red: 230, green: 230, blue: 230, alpha: 255 },
            select: Selecting::File,
            starting_path,
            filter_hidden: true,
        }
    }

    /// The state in which a dialog set up like this starts: in its starting
    /// directory, with the proposed file name to edit.
    pub open spec fn initial_state(self) -> DialogView {
        DialogView::initial(
            self.starting_path,
            self.select.mode(),
            self.filter_hidden,
            self.select.default_name(),
            self.background,
        )
    }
}

/// The settings of a dialog that is yet to be shown.
#[derive(Clone, Debug, PartialEq, Eq)]
pub struct FileDialog {
    title: String,
    width: u32,
    height: u32,
    samples: u8,
    background: Rgba,
    select: SelectType,
    starting_path: String,
    filter_hidden: bool,
}

impl View for FileDialog {
    type V = FileDialogView;

    closed spec fn view(&self) -> FileDialogView {
        FileDialogView {
            title: self.title@,
            width: self.width,
            height: self.height,
            samples: self.samples,
            background: self.background,
            select: self.select@,
            starting_path: self.starting_path@,
            filter_hidden: self.filter_hidden,
        }
    }
}

impl FileDialog {
    /// A dialog with the title given and everything else as it is unless
    /// told otherwise. It starts in the home directory `home`, or in the
    /// working directory `cwd` where no home directory is known; where
    /// neither is, there is no dialog.
    pub fn new(title: String, home: Option<String>, cwd: Option<String>) -> (dialog: Result<
        FileDialog,
        ConfigError,
    >)
        ensures
            match dialog {
                Ok(d) => {
                    &&& spec_default_path(text_of(home), text_of(cwd)) == Some(d@.starting_path)
                    &&& d@ == FileDialogView::defaults(title@, d@.starting_path)
                },
                Err(e) => {
                    &&& e == ConfigError::NoStartingPath
                    &&& spec_default_path(text_of(home), text_of(cwd)) is None
                },
            },
    {
        match default_path(home, cwd) {
            Ok(starting_path) => Ok(
                FileDialog {
                    title,
                    width: DEFAULT_WIDTH,
                    height: DEFAULT_HEIGHT,
                    samples: DEFAULT_SAMPLES,
                    background: Rgba::light_grey(),
                    select: SelectType::File,
                    starting_path,
                    filter_hidden: true,
                },
            ),
            Err(e) => Err(e),
        }
    }

    /// Sets the width of the window.
    pub fn width(self, width: u32) -> (dialog: FileDialog)
        ensures
            dialog@ == (FileDialogView { width, ..self@ }),
    {
        let mut dialog = self;
        dialog.width = width;
        dialog
    }

    /// Sets the height of the window.
    pub fn height(self, height: u32) -> (dialog: FileDialog)
        ensures
            dialog@ == (FileDialogView { height, ..self@ }),
    {
        let mut dialog = self;
        dialog.height = height;
        dialog
    }

    /// Sets width and height of the window.
    pub fn dimensions(self, width: u32, height: u32) -> (dialog: FileDialog)
        ensures
            dialog@ == (FileDialogView { width, height, ..self@ }),
    {
        let mut dialog = self;
        dialog.width = width;
        dialog.height = height;
        dialog
    }

    /// Sets the number of samples for each pixel.
    pub fn set_samples(self, samples: u8) -> (dialog: FileDialog)
        ensures
            dialog@ == (FileDialogView { samples, ..self@ }),
    {
        let mut dialog = self;
        dialog.samples = samples;
        dialog
    }

    /// Sets the colour behind the dialog.
    pub fn set_background(self, background: Rgba) -> (dialog: FileDialog)
        ensures
            dialog@ == (FileDialogView { background, ..self@ }),
    {
        let mut dialog = self;
        dialog.background = background;
        dialog
    }

    /// Sets what the dialog is to choose.
    pub fn set_select(self, select: SelectType) -> (dialog: FileDialog)
        ensures
            dialog@ == (FileDialogView { select: select@, ..self@ }),
    {
        let mut dialog = self;
        dialog.select = select;
        dialog
    }

    /// Sets the directory in which the dialog starts.
    pub fn set_starting_path(self, starting_path: String) -> (dialog: FileDialog)
        ensures
            dialog@ == (FileDialogView { starting_path: starting_path@, ..self@ }),
    {
        let mut dialog = self;
        dialog.starting_path = starting_path;
        dialog
    }

    /// Sets whether entries whose name starts with a dot are left out.
    pub fn set_filter_hidden(self, filter_hidden: bool) -> (dialog: FileDialog)
        ensures
            dialog@ == (FileDialogView { filter_hidden, ..self@ }),
    {
        let mut dialog = self;
        dialog.filter_hidden = filter_hidden;
        dialog
    }

    /// Closes the settings and hands out the two parts that showing the
    /// dialog takes: what the dialog's state is made from, and the window to
    /// ask for, which is never full screen and closes on escape.
    pub fn show(self) -> (parts: (DialogSettings, WindowSettings))
        ensures
            parts.0.background == self@.background,
            parts.0.select@ == self@.select,
            parts.0.starting_path@ == self@.starting_path,
            parts.0.filter_hidden == self@.filter_hidden,
            parts.1.title@ == self@.title,
            parts.1.width == self@.width,
            parts.1.height == self@.height,
            parts.1.samples == self@.samples,
            !parts.1.fullscreen,
            parts.1.exit_on_esc,
            parts.0.spec_into_state() == self@.initial_state(),
    {
        let dialog = DialogSettings {
            background: self.background,
            select: self.select,
            starting_path: self.starting_path,
            filter_hidden: self.filter_hidden,
        };
        let window = WindowSettings {
            title: self.title,
            width: self.width,
            height: self.height,
            samples: self.samples,
            fullscreen: false,
            exit_on_esc: true,
        };
        (dialog, window)
    }
}

impl DialogSettings {
    /// The state in which a dialog made from these settings starts.
    pub open spec fn spec_into_state(self) -> DialogView {
        DialogView::initial(
            self.starting_path@,
            self.select@.mode(),
            self.filter_hidden,
            self.select@.default_name(),
            self.background,
        )
    }

    /// Makes the state in which the dialog starts: in the starting
    /// directory, which is yet to be read, with the proposed file name as
    /// the file name to edit.
    pub fn into_state(self) -> (state: DialogState)
        ensures
            state.wf(),
            state@ == self.spec_into_state(),
    {
        let filename = self.select.default_name();
        let mode = self.select.mode();
        DialogState::new(self.starting_path, mode, self.filter_hidden, filename, self.background)
    }
}

} // verus!
