use vstd::prelude::*;

verus! {

/// How the search pattern is held against a file.
#[derive(Debug, PartialEq, Copy, Clone, Eq, Structural)]
pub enum SearchType {
    Contains,
    Fuzzy,
    /// No search: every file passes.
    NoSearch,
    Pattern,
    Simple,
}

/// What may be done with a file that was found.
#[derive(Debug, PartialEq, Copy, Clone, Eq, Structural)]
pub enum FileAction {
    Delete,
    Save,
    NoAction,
    /// The file's checksum was read.
    Read,
}

/// The kind of a file, as told by its extension.
#[derive(Debug, PartialEq, Copy, Clone, Eq, Structural)]
pub enum FileType {
    All,
    Audio,
    Document,
    Empty,
    Image,
    Other,
    Video,
}

/// A piece of metadata of a file.
#[derive(Debug, PartialEq, Clone, Copy, Eq)]
pub enum MetaData<'a> {
    FileSize(i32),
    Created(&'a str),
}

/// The position in a file-type filter that stands for `t`.
pub open spec fn filter_slot(t: FileType) -> int {
    match t {
        FileType::All => 0,
        FileType::Audio => 1,
        FileType::Document => 2,
        FileType::Empty => 3,
        FileType::Image => 4,
        FileType::Other => 5,
        FileType::Video => 6,
    }
}

/// Executable form of `filter_slot`.
pub fn filter_slot_of(t: FileType) -> (i: usize)
    ensures
        i == filter_slot(t),
        i < 7,
{
    match t {
        FileType::All => 0,
        FileType::Audio => 1,
        FileType::Document => 2,
        FileType::Empty => 3,
        FileType::Image => 4,
        FileType::Other => 5,
        FileType::Video => 6,
    }
}

} // verus!
