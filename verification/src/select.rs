//! What a dialog is asked to choose: a file to open, a folder, or a place to
//! save a file to.

use vstd::prelude::*;

verus! {

/// The kind of choice, without what comes with it.
#[derive(Clone, Copy, Debug, PartialEq, Eq, Structural)]
pub enum Mode {
    /// A file that exists is chosen.
    OpenFile,
    /// A folder is chosen.
    OpenFolder,
    /// A folder and a file name in it are chosen.
    SaveFile,
}

impl Mode {
    /// Whether files are listed beside the folders.
    pub open spec fn spec_show_files(self) -> bool {
        self != Mode::OpenFolder
    }

    /// Whether files are listed beside the folders: they are unless a folder
    /// is to be chosen.
    pub fn show_files(self) -> (shown: bool)
        ensures
            shown == self.spec_show_files(),
    {
        match self {
            Mode::OpenFile => true,
            Mode::OpenFolder => false,
            Mode::SaveFile => true,
        }
    }
}

/// The file selection behaviour of a dialog.
#[derive(Clone, Debug, PartialEq, Eq)]
pub enum SelectType {
    /// The user must select an existing file.
    File,
    /// The user must select an existing folder.
    Folder,
    /// The user must select where to save a file, and the file's name. The
    /// `Option` holds the name that the dialog proposes, if any.
    SaveFile(Option<String>),
}

/// What a `SelectType` stands for.
pub enum Selecting {
    File,
    Folder,
    SaveFile(Option<Seq<char>>),
}

impl Selecting {
    /// The kind of choice.
    pub open spec fn mode(self) -> Mode {
        match self {
            Selecting::File => Mode::OpenFile,
            Selecting::Folder => Mode::OpenFolder,
            Selecting::SaveFile(_) => Mode::SaveFile,
        }
    }

    /// The file name that the dialog starts with: the proposed one when
    /// saving, else none.
    pub open spec fn default_name(self) -> Seq<char> {
        match self {
            Selecting::SaveFile(Some(name)) => name,
            _ => Seq::empty(),
        }
    }
}

impl View for SelectType {
    type V = Selecting;

    open spec fn view(&self) -> Selecting {
        match self {
            SelectType::File => Selecting::File,
            SelectType::Folder => Selecting::Folder,
            SelectType::SaveFile(None) => Selecting::SaveFile(None),
            SelectType::SaveFile(Some(name)) => Selecting::SaveFile(Some(name@)),
        }
    }
}

impl SelectType {
    /// The kind of choice.
    pub fn mode(&self) -> (mode: Mode)
        ensures
            mode == self@.mode(),
    {
        match self {
            SelectType::File => Mode::OpenFile,
            SelectType::Folder => Mode::OpenFolder,
            SelectType::SaveFile(_) => Mode::SaveFile,
        }
    }

    /// Whether files are listed beside the folders.
    pub fn show_files(&self) -> (shown: bool)
        ensures
            shown == self@.mode().spec_show_files(),
    {
        match self {
            SelectType::File => true,
            SelectType::SaveFile(_) => true,
            _ => false,
        }
    }

    /// The file name that the dialog starts with.
    pub fn default_name(&self) -> (name: String)
        ensures
            name@ == self@.default_name(),
    {
        match self {
            SelectType::SaveFile(Some(name)) => name.clone(),
            _ => String::new(),
        }
    }

    /// A copy of this value.
    pub fn duplicate(&self) -> (copy: SelectType)
        ensures
            copy@ == self@,
    {
        match self {
            SelectType::File => SelectType::File,
            SelectType::Folder => SelectType::Folder,
            SelectType::SaveFile(None) => SelectType::SaveFile(None),
            SelectType::SaveFile(Some(name)) => SelectType::SaveFile(Some(name.clone())),
        }
    }
}

} // verus!
