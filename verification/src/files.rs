//! What the library asks of the file system, and what it is told.
use crate::primitives::memory::{scrub, zeros};
use vstd::prelude::*;

verus! {

/// The outcome of reading a whole file.
pub enum FileRead {
    /// The file's contents.
    Contents(Vec<u8>),
    /// There is no such file.
    NotFound,
    /// Reading failed; the text says why.
    Failed(String),
}

/// A [`FileRead`] with its contents as a sequence.
pub enum FileReadView {
    Contents(Seq<u8>),
    NotFound,
    Failed(Seq<char>),
}

impl View for FileRead {
    type V = FileReadView;

    open spec fn view(&self) -> FileReadView {
        match self {
            FileRead::Contents(bytes) => FileReadView::Contents(bytes@),
            FileRead::NotFound => FileReadView::NotFound,
            FileRead::Failed(text) => FileReadView::Failed(text@),
        }
    }
}

/// A change to the file system.
pub enum FileTask {
    /// Create a directory and its parents, where they are missing.
    CreateDir(String),
    /// Set the permission bits of a file or directory.
    SetMode(String, u32),
    /// Write a file, replacing what it holds.
    Write(String, Vec<u8>),
    /// Move a file, replacing the target.
    Rename(String, String),
}

/// A [`FileTask`] with its paths and contents as sequences.
pub enum FileTaskView {
    CreateDir(Seq<char>),
    SetMode(Seq<char>, u32),
    Write(Seq<char>, Seq<u8>),
    Rename(Seq<char>, Seq<char>),
}

impl View for FileTask {
    type V = FileTaskView;

    open spec fn view(&self) -> FileTaskView {
        match self {
            FileTask::CreateDir(path) => FileTaskView::CreateDir(path@),
            FileTask::SetMode(path, mode) => FileTaskView::SetMode(path@, *mode),
            FileTask::Write(path, contents) => FileTaskView::Write(path@, contents@),
            FileTask::Rename(from, to) => FileTaskView::Rename(from@, to@),
        }
    }
}

impl FileTaskView {
    /// The change with zeros in place of what is to be written.
    pub open spec fn without_contents(self) -> FileTaskView {
        match self {
            FileTaskView::Write(path, contents) => FileTaskView::Write(path, zeros(contents.len())),
            _ => self,
        }
    }
}

impl FileTask {
    /// Overwrites what is to be written with zeros, once it has been written: it may be a key.
    pub fn erase_contents(&mut self)
        ensures
            final(self)@ == old(self)@.without_contents(),
    {
        match self {
            FileTask::Write(_, contents) => scrub(contents.as_mut_slice()),
            _ => {},
        }
    }
}

/// The outcome of a change, with its error text as a sequence.
pub open spec fn change_view(r: Result<(), String>) -> Result<(), Seq<char>> {
    match r {
        Ok(_) => Ok(()),
        Err(text) => Err(text@),
    }
}

/// The files that a file system holds, by path.
pub type Files = Map<Seq<char>, Seq<u8>>;

/// What a read of `path` gives.
pub open spec fn read_of(files: Files, path: Seq<char>) -> FileReadView {
    if files.contains_key(path) {
        FileReadView::Contents(files[path])
    } else {
        FileReadView::NotFound
    }
}

/// The files after a change.
pub open spec fn changed(files: Files, task: FileTaskView) -> Files {
    match task {
        FileTaskView::Write(path, contents) => files.insert(path, contents),
        FileTaskView::Rename(from, to) => files.remove(from).insert(to, files[from]),
        _ => files,
    }
}

} // verus!
