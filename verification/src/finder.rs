//! The finder: which files of a walk are kept, and what is recorded of them.

use vstd::prelude::*;

use crate::enums::{filter_slot, filter_slot_of, FileType, SearchType};
use crate::outside::{
    ascii_lowercase, ascii_lowercase_of, extension_of, file_name_of, is_ascii_text, lowercase_of, opt_view,
    path_extension, path_file_name, regex_compiles, regex_finds, regex_search, skim_fuzzy_match,
    skim_matches, unicode_lowercase,
};
use crate::text::{seq_contains, seq_starts_with, str_contains, str_eq, str_starts_with};

verus! {

/// A file that passed the filters.
#[derive(Debug, Clone)]
pub struct Found {
    /// The file's name, ASCII letters made small.
    pub name: String,
    /// The file's path as the walk gave it.
    pub path: String,
}

/// The settings of a search and the files it has found so far.
#[derive(Debug, Clone)]
pub struct Finder<'a> {
    pub directory: Option<&'a str>,
    pub search_pattern: Option<&'a str>,
    pub search_type: SearchType,
    pub flag_skip_hidden: bool,
    pub flag_skip_photos: bool,
    pub list: Vec<Found>,
    pub thread_count: i32,
}

/// What became of one entry of a directory walk.
#[derive(Debug, PartialEq, Copy, Clone, Eq, Structural)]
pub enum EntryOutcome {
    /// The entry is the user's Photos Library, or lies inside it; the search skips both.
    PhotosLibrarySkipped,
    /// The entry is a directory; only files are reported.
    Directory,
    /// The file's type is not one the filter asks for.
    FilteredByType,
    /// The file does not match the search pattern.
    FilteredByPattern,
    /// The file was added to the list.
    Added,
}

/// Inputs on which the search cannot go on.
#[derive(Debug, PartialEq, Copy, Clone, Eq, Structural)]
pub enum FinderError {
    /// The path has no final component to match against.
    MissingFileName,
    /// The search pattern is not a regular expression the regex crate accepts.
    InvalidPattern,
}

// ---------------------------------------------------------------------------
// The rules, as spec functions.

/// Lowercase extensions of images.
pub open spec fn is_image_ext(e: Seq<char>) -> bool {
    e == "jpg"@ || e == "png"@ || e == "heic"@ || e == "jpeg"@ || e == "tiff"@ || e == "tif"@
        || e == "psd"@ || e == "tga"@ || e == "thm"@ || e == "dds"@
}

/// Lowercase extensions of videos.
pub open spec fn is_video_ext(e: Seq<char>) -> bool {
    e == "avi"@ || e == "mov"@ || e == "mpg"@ || e == "mpeg"@ || e == "mp4"@
}

/// Lowercase extensions of documents.
pub open spec fn is_document_ext(e: Seq<char>) -> bool {
    e == "doc"@ || e == "docx"@ || e == "txt"@ || e == "vcs"@ || e == "xls"@ || e == "pdf"@
        || e == "ppt"@ || e == "zip"@
}

/// Lowercase extensions of audio files.
pub open spec fn is_audio_ext(e: Seq<char>) -> bool {
    e == "tta"@ || e == "sln"@ || e == "mogg"@ || e == "oga"@ || e == "wma"@ || e == "wav"@
        || e == "vox"@ || e == "voc"@ || e == "raw"@ || e == "ogg"@ || e == "mpc"@ || e == "mp3"@
        || e == "m4p"@ || e == "m4b"@ || e == "m4a"@ || e == "gsm"@ || e == "flac"@ || e == "au"@
        || e == "ape"@ || e == "amr"@ || e == "aiff"@ || e == "act"@ || e == "aax"@ || e == "aac"@
        || e == "aa"@ || e == "3gp"@
}

/// The type named by a lowercase extension.
pub open spec fn classify_extension(e: Seq<char>) -> FileType {
    if is_image_ext(e) {
        FileType::Image
    } else if is_video_ext(e) {
        FileType::Video
    } else if is_document_ext(e) {
        FileType::Document
    } else if is_audio_ext(e) {
        FileType::Audio
    } else {
        FileType::Other
    }
}

/// The type of the file at `path`: `Empty` where it has no extension, else
/// the type its extension names, case aside.
pub open spec fn file_type_of_path(path: Seq<char>) -> FileType {
    match path_extension(path) {
        None => FileType::Empty,
        Some(e) => classify_extension(unicode_lowercase(e)),
    }
}

/// Whether a filter lets a file of type `t` through: its first slot ("All")
/// lets every file through, and otherwise the slot of `t` decides.
pub open spec fn type_allowed(filter: Seq<bool>, t: FileType) -> bool {
    filter[0] || filter[filter_slot(t)]
}

/// The text of an optional pattern.
pub open spec fn pattern_view(p: Option<&str>) -> Option<Seq<char>> {
    match p {
        Some(s) => Some(s@),
        None => None,
    }
}

/// Whether a file passes a search, given the outcomes of the fuzzy and the
/// regex matchers: `Contains` asks for the lowercased pattern within the
/// lowercased name; `Simple` for the name itself; `NoSearch` lets every file pass.
pub open spec fn match_rule(
    st: SearchType,
    pattern: Seq<char>,
    name: Seq<char>,
    fuzzy_found: bool,
    regex_found: bool,
) -> bool {
    match st {
        SearchType::Contains => seq_contains(unicode_lowercase(name), unicode_lowercase(pattern)),
        SearchType::Fuzzy => fuzzy_found,
        SearchType::Pattern => regex_found,
        SearchType::Simple => name == pattern,
        SearchType::NoSearch => true,
    }
}

/// Whether the file at `path`, named `name`, passes the search: never without
/// a pattern; the fuzzy matcher is held against the whole path, the others
/// against the name.
pub open spec fn pattern_keeps(
    st: SearchType,
    sp: Option<Seq<char>>,
    path: Seq<char>,
    name: Seq<char>,
) -> bool {
    match sp {
        None => false,
        Some(p) => match_rule(st, p, name, skim_matches(path, p), regex_finds(p, name)),
    }
}

/// Whether a search can be carried out: a regex pattern must compile.
pub open spec fn pattern_usable(st: SearchType, sp: Option<Seq<char>>) -> bool {
    match sp {
        Some(p) => st == SearchType::Pattern ==> regex_compiles(p),
        None => true,
    }
}

/// The path of the user's Photos Library under the home directory `home`.
pub open spec fn photos_library_of(home: Seq<char>) -> Seq<char> {
    home + "/Pictures/Photos Library.photoslibrary"@
}

/// Whether `path` is the Photos Library under `home` or lies inside it.
pub open spec fn in_photos_library(path: Seq<char>, home: Seq<char>) -> bool {
    path == photos_library_of(home) || seq_starts_with(path, photos_library_of(home) + "/"@)
}

impl<'a> Finder<'a> {
    /// The settings of `self` and `other` agree (the list aside).
    pub open spec fn same_settings(&self, other: &Finder<'a>) -> bool {
        &&& self.directory == other.directory
        &&& self.search_pattern == other.search_pattern
        &&& self.search_type == other.search_type
        &&& self.flag_skip_hidden == other.flag_skip_hidden
        &&& self.flag_skip_photos == other.flag_skip_photos
        &&& self.thread_count == other.thread_count
    }

    /// Whether `path` is, or lies inside, the Photos Library that this search skips.
    pub open spec fn skips_photos(&self, path: Seq<char>, home: Seq<char>) -> bool {
        self.flag_skip_photos && in_photos_library(path, home)
    }

    /// Whether the pattern of this search can be used.
    pub open spec fn usable(&self) -> bool {
        pattern_usable(self.search_type, pattern_view(self.search_pattern))
    }

    /// Whether the file at `path` passes this search.
    pub open spec fn keeps(&self, path: Seq<char>) -> bool {
        pattern_keeps(
            self.search_type,
            pattern_view(self.search_pattern),
            path,
            path_file_name(path).unwrap(),
        )
    }

    /// Whether a walk entry gets as far as the search pattern.
    pub open spec fn reaches_pattern(
        &self,
        path: Seq<char>,
        is_dir: bool,
        home: Seq<char>,
        filter: Seq<bool>,
    ) -> bool {
        !self.skips_photos(path, home) && !is_dir && type_allowed(filter, file_type_of_path(path))
    }

    /// What becomes of a walk entry.
    pub open spec fn entry_outcome(
        &self,
        path: Seq<char>,
        is_dir: bool,
        home: Seq<char>,
        filter: Seq<bool>,
    ) -> EntryOutcome {
        if self.skips_photos(path, home) {
            EntryOutcome::PhotosLibrarySkipped
        } else if is_dir {
            EntryOutcome::Directory
        } else if !type_allowed(filter, file_type_of_path(path)) {
            EntryOutcome::FilteredByType
        } else if !self.keeps(path) {
            EntryOutcome::FilteredByPattern
        } else {
            EntryOutcome::Added
        }
    }

    /// `after` is `self` once the walk entry `path` has been dealt with, with
    /// outcome `o`: the settings stay, and the list grows by the entry exactly
    /// when it was added.
    pub open spec fn visited(
        &self,
        after: &Finder<'a>,
        path: Seq<char>,
        is_dir: bool,
        home: Seq<char>,
        filter: Seq<bool>,
        o: EntryOutcome,
    ) -> bool {
        &&& after.same_settings(self)
        &&& o == self.entry_outcome(path, is_dir, home, filter)
        &&& o != EntryOutcome::Added ==> after.list@ == self.list@
        &&& o == EntryOutcome::Added ==> {
            &&& after.list@.len() == self.list@.len() + 1
            &&& after.list@.subrange(0, self.list@.len() as int) == self.list@
            &&& after.list@.last().path@ == path
            &&& after.list@.last().name@ == ascii_lowercase(path_file_name(path).unwrap())
        }
    }
}

// ---------------------------------------------------------------------------
// The executable rules.

/// Whether a lowercase extension is one of the image extensions.
fn is_image_ext_exec(e: &str) -> (r: bool)
    ensures
        r == is_image_ext(e@),
{
    str_eq(e, "jpg") || str_eq(e, "png") || str_eq(e, "heic") || str_eq(e, "jpeg") || str_eq(
        e,
        "tiff",
    ) || str_eq(e, "tif") || str_eq(e, "psd") || str_eq(e, "tga") || str_eq(e, "thm") || str_eq(
        e,
        "dds",
    )
}

/// Whether a lowercase extension is one of the video extensions.
fn is_video_ext_exec(e: &str) -> (r: bool)
    ensures
        r == is_video_ext(e@),
{
    str_eq(e, "avi") || str_eq(e, "mov") || str_eq(e, "mpg") || str_eq(e, "mpeg") || str_eq(
        e,
        "mp4",
    )
}

/// Whether a lowercase extension is one of the document extensions.
fn is_document_ext_exec(e: &str) -> (r: bool)
    ensures
        r == is_document_ext(e@),
{
    str_eq(e, "doc") || str_eq(e, "docx") || str_eq(e, "txt") || str_eq(e, "vcs") || str_eq(
        e,
        "xls",
    ) || str_eq(e, "pdf") || str_eq(e, "ppt") || str_eq(e, "zip")
}

/// Whether a lowercase extension is one of the audio extensions.
fn is_audio_ext_exec(e: &str) -> (r: bool)
    ensures
        r == is_audio_ext(e@),
{
    str_eq(e, "tta") || str_eq(e, "sln") || str_eq(e, "mogg") || str_eq(e, "oga") || str_eq(
        e,
        "wma",
    ) || str_eq(e, "wav") || str_eq(e, "vox") || str_eq(e, "voc") || str_eq(e, "raw") || str_eq(
        e,
        "ogg",
    ) || str_eq(e, "mpc") || str_eq(e, "mp3") || str_eq(e, "m4p") || str_eq(e, "m4b") || str_eq(
        e,
        "m4a",
    ) || str_eq(e, "gsm") || str_eq(e, "flac") || str_eq(e, "au") || str_eq(e, "ape") || str_eq(
        e,
        "amr",
    ) || str_eq(e, "aiff") || str_eq(e, "act") || str_eq(e, "aax") || str_eq(e, "aac")
        || str_eq(e, "aa") || str_eq(e, "3gp")
}

/// The type named by a lowercase extension.
pub fn classify_extension_exec(e: &str) -> (t: FileType)
    ensures
        t == classify_extension(e@),
{
    if is_image_ext_exec(e) {
        FileType::Image
    } else if is_video_ext_exec(e) {
        FileType::Video
    } else if is_document_ext_exec(e) {
        FileType::Document
    } else if is_audio_ext_exec(e) {
        FileType::Audio
    } else {
        FileType::Other
    }
}

/// Whether a file passes a search, given what the fuzzy matcher and the regex
/// matcher answered for it.
pub fn match_decision(
    search_type: SearchType,
    pattern: &str,
    name: &str,
    fuzzy_found: bool,
    regex_found: bool,
) -> (r: bool)
    ensures
        r == match_rule(search_type, pattern@, name@, fuzzy_found, regex_found),
{
    match search_type {
        SearchType::Contains => {
            let lower_name = lowercase_of(name);
            let lower_pattern = lowercase_of(pattern);
            str_contains(lower_name.as_str(), lower_pattern.as_str())
        },
        SearchType::Fuzzy => fuzzy_found,
        SearchType::Pattern => regex_found,
        SearchType::Simple => str_eq(name, pattern),
        SearchType::NoSearch => true,
    }
}

/// The name of the file at `path`.
#[allow(dead_code)]
fn get_file_name_os(path: &str) -> (name: String)
    requires
        path_file_name(path@) is Some,
    ensures
        name@ == path_file_name(path@).unwrap(),
{
    file_name_of(path).unwrap()
}

/// The path itself, as an owned string.
#[allow(dead_code)]
fn get_file_path_os(path: &str) -> (p: String)
    ensures
        p@ == path@,
{
    String::from_str(path)
}

/// The name and the path of the file at `path`.
#[allow(dead_code)]
fn file_metadata_join(path: &str) -> (r: (String, String))
    requires
        path_file_name(path@) is Some,
    ensures
        r.0@ == path_file_name(path@).unwrap(),
        r.1@ == path@,
{
    (get_file_name_os(path), get_file_path_os(path))
}

impl<'a> Finder<'a> {
    /// A finder with no directory and no pattern, that skips hidden files and
    /// the Photos Library, and walks with 25 threads.
    pub fn new() -> (f: Finder<'a>)
        ensures
            f.directory is None,
            f.search_pattern is None,
            f.search_type == SearchType::NoSearch,
            f.flag_skip_hidden,
            f.flag_skip_photos,
            f.list@.len() == 0,
            f.thread_count == 25,
    {
        Finder {
            directory: None,
            flag_skip_hidden: true,
            flag_skip_photos: true,
            list: Vec::new(),
            search_pattern: None,
            search_type: SearchType::NoSearch,
            thread_count: 25,
        }
    }

    /// Sets which parts of the tree are searched: hidden directories only
    /// when `search_hidden`, the Photos Library only when `search_photos`.
    pub fn set_search_flags(&mut self, search_hidden: bool, search_photos: bool)
        ensures
            final(self).flag_skip_hidden == !search_hidden,
            final(self).flag_skip_photos == !search_photos,
            final(self).directory == old(self).directory,
            final(self).search_pattern == old(self).search_pattern,
            final(self).search_type == old(self).search_type,
            final(self).thread_count == old(self).thread_count,
            final(self).list@ == old(self).list@,
    {
        self.flag_skip_hidden = !search_hidden;
        self.flag_skip_photos = !search_photos;
    }

    /// The type of the file at `path`, by its extension.
    pub fn get_file_type(path: &str) -> (t: FileType)
        ensures
            t == file_type_of_path(path@),
            path_extension(path@) matches Some(e) ==> (is_ascii_text(e) ==> t == classify_extension(
                ascii_lowercase(e),
            )),
    {
        match extension_of(path) {
            None => FileType::Empty,
            Some(ext) => {
                let lower = lowercase_of(ext.as_str());
                classify_extension_exec(lower.as_str())
            },
        }
    }

    /// The path back where the filter lets a file of its type through, else nothing.
    pub fn filter_file_type(&mut self, path: &str, filter: [bool; 7]) -> (r: Option<String>)
        ensures
            *final(self) == *old(self),
            opt_view(r) == (if type_allowed(filter@, file_type_of_path(path@)) {
                Some(path@)
            } else {
                None
            }),
    {
        if filter[0] {
            return Some(String::from_str(path));
        }
        let t = Self::get_file_type(path);
        let slot = filter_slot_of(t);
        if filter[slot] {
            Some(String::from_str(path))
        } else {
            None
        }
    }

    /// Whether the pattern of this search can be used.
    fn pattern_is_usable(&self) -> (b: bool)
        ensures
            b == self.usable(),
    {
        match self.search_pattern {
            Some(pattern) => match self.search_type {
                SearchType::Pattern => regex_search(pattern, "").is_ok(),
                _ => true,
            },
            None => true,
        }
    }

    /// The path back where the file passes the search, else nothing.
    pub fn filter_pattern_match(&mut self, path: &str, filter: [bool; 7]) -> (r: Option<String>)
        requires
            path_file_name(path@) is Some,
            old(self).usable(),
        ensures
            *final(self) == *old(self),
            opt_view(r) == (if old(self).keeps(path@) {
                Some(path@)
            } else {
                None
            }),
    {
        let name = file_name_of(path).unwrap();
        match self.search_pattern {
            Some(pattern) => {
                let matched = match self.search_type {
                    SearchType::Fuzzy => {
                        let score = skim_fuzzy_match(path, pattern);
                        match_decision(
                            SearchType::Fuzzy,
                            pattern,
                            name.as_str(),
                            score.is_some(),
                            false,
                        )
                    },
                    SearchType::Pattern => {
                        let found = match regex_search(pattern, name.as_str()) {
                            Ok(found) => found,
                            Err(_) => false,
                        };
                        match_decision(SearchType::Pattern, pattern, name.as_str(), false, found)
                    },
                    other => match_decision(other, pattern, name.as_str(), false, false),
                };
                if matched {
                    Some(String::from_str(path))
                } else {
                    None
                }
            },
            None => None,
        }
    }

    /// `filter_pattern_match`, with an error in place of the inputs it cannot
    /// take: a path without a file name, or a regex pattern that does not compile.
    pub fn try_filter_pattern_match(&mut self, path: &str, filter: [bool; 7]) -> (r: Result<
        Option<String>,
        FinderError,
    >)
        ensures
            *final(self) == *old(self),
            path_file_name(path@) is None ==> r == Err::<Option<String>, FinderError>(
                FinderError::MissingFileName,
            ),
            path_file_name(path@) is Some && !old(self).usable() ==> r == Err::<
                Option<String>,
                FinderError,
            >(FinderError::InvalidPattern),
            path_file_name(path@) is Some && old(self).usable() ==> (r matches Ok(o) && opt_view(o)
                == (if old(self).keeps(path@) {
                Some(path@)
            } else {
                None
            })),
    {
        if file_name_of(path).is_none() {
            return Err(FinderError::MissingFileName);
        }
        if !self.pattern_is_usable() {
            return Err(FinderError::InvalidPattern);
        }
        Ok(self.filter_pattern_match(path, filter))
    }

    /// Whether `path` is the Photos Library that this search skips.
    fn is_skipped_photos(&self, path: &str, user_home: &str) -> (b: bool)
        ensures
            b == self.skips_photos(path@, user_home@),
    {
        if self.flag_skip_photos {
            let joined = String::from_str(user_home).concat("/Pictures/Photos Library.photoslibrary");
            if str_eq(path, joined.as_str()) {
                return true;
            }
            let inside = joined.concat("/");
            str_starts_with(path, inside.as_str())
        } else {
            false
        }
    }

    /// Deals with one entry of a directory walk: a file whose type the filter
    /// lets through and that passes the search is added to the list, with its
    /// name in lowercase ASCII.
    pub fn visit_entry(
        &mut self,
        path: &str,
        is_dir: bool,
        user_home: &str,
        filter: [bool; 7],
    ) -> (o: EntryOutcome)
        requires
            old(self).reaches_pattern(path@, is_dir, user_home@, filter@) ==> path_file_name(
                path@,
            ) is Some && old(self).usable(),
        ensures
            old(self).visited(final(self), path@, is_dir, user_home@, filter@, o),
    {
        if self.is_skipped_photos(path, user_home) {
            return EntryOutcome::PhotosLibrarySkipped;
        }
        if is_dir {
            return EntryOutcome::Directory;
        }
        if self.filter_file_type(path, filter).is_none() {
            return EntryOutcome::FilteredByType;
        }
        match self.filter_pattern_match(path, filter) {
            None => EntryOutcome::FilteredByPattern,
            Some(kept) => {
                let file_name = file_name_of(path).unwrap();
                let name = ascii_lowercase_of(file_name.as_str());
                let ghost before = self.list@;
                self.list.push(Found { name, path: kept });
                assert(self.list@.subrange(0, before.len() as int) =~= before);
                EntryOutcome::Added
            },
        }
    }

    /// `visit_entry`, with an error in place of the entries it cannot take: a
    /// file to be matched that has no file name, or a regex pattern that does
    /// not compile. On an error the finder is left as it was.
    pub fn try_visit_entry(
        &mut self,
        path: &str,
        is_dir: bool,
        user_home: &str,
        filter: [bool; 7],
    ) -> (r: Result<EntryOutcome, FinderError>)
        ensures
            old(self).reaches_pattern(path@, is_dir, user_home@, filter@) && path_file_name(
                path@,
            ) is None ==> r == Err::<EntryOutcome, FinderError>(FinderError::MissingFileName)
                && *final(self) == *old(self),
            old(self).reaches_pattern(path@, is_dir, user_home@, filter@) && path_file_name(
                path@,
            ) is Some && !old(self).usable() ==> r == Err::<EntryOutcome, FinderError>(
                FinderError::InvalidPattern,
            ) && *final(self) == *old(self),
            !old(self).reaches_pattern(path@, is_dir, user_home@, filter@) || (path_file_name(
                path@,
            ) is Some && old(self).usable()) ==> (r matches Ok(o) && old(self).visited(
                final(self),
                path@,
                is_dir,
                user_home@,
                filter@,
                o,
            )),
    {
        if !self.is_skipped_photos(path, user_home) && !is_dir && self.filter_file_type(
            path,
            filter,
        ).is_some() {
            if file_name_of(path).is_none() {
                return Err(FinderError::MissingFileName);
            }
            if !self.pattern_is_usable() {
                return Err(FinderError::InvalidPattern);
            }
        }
        Ok(self.visit_entry(path, is_dir, user_home, filter))
    }
}

} // verus!
