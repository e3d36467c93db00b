use ffinder::enums::{FileType, SearchType};
use ffinder::finder::{match_decision, EntryOutcome, Finder, FinderError};

const ALL: [bool; 7] = [true, false, false, false, false, false, false];
const AUDIO_ONLY: [bool; 7] = [false, true, false, false, false, false, false];

fn finder_with(search_type: SearchType, pattern: Option<&'static str>) -> Finder<'static> {
    let mut f = Finder::new();
    f.search_type = search_type;
    f.search_pattern = pattern;
    f
}

#[test]
fn new_has_documented_defaults() {
    let f = Finder::new();
    assert_eq!(f.directory, None);
    assert_eq!(f.search_pattern, None);
    assert_eq!(f.search_type, SearchType::NoSearch);
    assert!(f.flag_skip_hidden);
    assert!(f.flag_skip_photos);
    assert!(f.list.is_empty());
    assert_eq!(f.thread_count, 25);
}

#[test]
fn file_type_by_extension() {
    assert_eq!(Finder::get_file_type("/pics/a.jpg"), FileType::Image);
    assert_eq!(Finder::get_file_type("/pics/a.JPG"), FileType::Image);
    assert_eq!(Finder::get_file_type("clip.MP4"), FileType::Video);
    assert_eq!(Finder::get_file_type("docs/report.pdf"), FileType::Document);
    assert_eq!(Finder::get_file_type("music/song.mp3"), FileType::Audio);
    assert_eq!(Finder::get_file_type("music/ring.3gp"), FileType::Audio);
    assert_eq!(Finder::get_file_type("backup.tar.gz"), FileType::Other);
    assert_eq!(Finder::get_file_type("dir/README"), FileType::Empty);
    assert_eq!(Finder::get_file_type("home/.bashrc"), FileType::Empty);
    assert_eq!(Finder::get_file_type(""), FileType::Empty);
}

#[test]
fn filter_file_type_all_slot_passes_everything() {
    let mut f = Finder::new();
    assert_eq!(f.filter_file_type("a/b.xyz", ALL), Some("a/b.xyz".to_string()));
    assert_eq!(f.filter_file_type("noext", ALL), Some("noext".to_string()));
}

#[test]
fn filter_file_type_by_slot() {
    let mut f = Finder::new();
    assert_eq!(f.filter_file_type("a/b.wav", AUDIO_ONLY), Some("a/b.wav".to_string()));
    assert_eq!(f.filter_file_type("a/b.png", AUDIO_ONLY), None);
    let empty_only = [false, false, false, true, false, false, false];
    assert_eq!(f.filter_file_type("a/Makefile", empty_only), Some("a/Makefile".to_string()));
    assert_eq!(f.filter_file_type("a/b.png", [false; 7]), None);
}

#[test]
fn contains_search_ignores_case() {
    let mut f = finder_with(SearchType::Contains, Some("beethoven"));
    assert_eq!(
        f.filter_pattern_match("/music/Beethoven_Symphony5.mp3", ALL),
        Some("/music/Beethoven_Symphony5.mp3".to_string())
    );
    assert_eq!(f.filter_pattern_match("/beethoven/mozart.mp3", ALL), None);
}

#[test]
fn simple_search_is_exact_name() {
    let mut f = finder_with(SearchType::Simple, Some("notes.txt"));
    assert_eq!(f.filter_pattern_match("/a/notes.txt", ALL), Some("/a/notes.txt".to_string()));
    assert_eq!(f.filter_pattern_match("/a/Notes.txt", ALL), None);
    assert_eq!(f.filter_pattern_match("/a/notes.txt.bak", ALL), None);
}

#[test]
fn fuzzy_search_uses_the_whole_path() {
    let mut f = finder_with(SearchType::Fuzzy, Some("mnty"));
    assert_eq!(f.filter_pattern_match("/home/minty/a.txt", ALL), Some("/home/minty/a.txt".to_string()));
    assert_eq!(f.filter_pattern_match("/home/zzz/a.txt", ALL), None);
    let mut empty = finder_with(SearchType::Fuzzy, Some(""));
    assert_eq!(empty.filter_pattern_match("/x/y", ALL), Some("/x/y".to_string()));
}

#[test]
fn regex_search_on_name() {
    let mut f = finder_with(SearchType::Pattern, Some("^b[0-9]+\\.mp3$"));
    assert_eq!(f.filter_pattern_match("/x/b12.mp3", ALL), Some("/x/b12.mp3".to_string()));
    assert_eq!(f.filter_pattern_match("/b12.mp3/c.mp3", ALL), None);
}

#[test]
fn no_search_keeps_and_no_pattern_drops() {
    let mut keep = finder_with(SearchType::NoSearch, Some("anything"));
    assert_eq!(keep.filter_pattern_match("/x/y.z", ALL), Some("/x/y.z".to_string()));
    let mut none = finder_with(SearchType::Contains, None);
    assert_eq!(none.filter_pattern_match("/x/y.z", ALL), None);
}

#[test]
fn try_filter_reports_invalid_pattern() {
    let mut f = finder_with(SearchType::Pattern, Some("(unclosed"));
    assert_eq!(f.try_filter_pattern_match("/x/y", ALL), Err(FinderError::InvalidPattern));
}

#[test]
fn try_filter_reports_missing_file_name() {
    let mut f = finder_with(SearchType::Contains, Some("x"));
    assert_eq!(f.try_filter_pattern_match("/a/..", ALL), Err(FinderError::MissingFileName));
    assert_eq!(f.try_filter_pattern_match("/", ALL), Err(FinderError::MissingFileName));
    assert_eq!(f.try_filter_pattern_match("/a/x", ALL), Ok(Some("/a/x".to_string())));
}

#[test]
fn match_decision_rules() {
    assert!(match_decision(SearchType::Contains, "MiNt", "peppermint.txt", false, false));
    assert!(!match_decision(SearchType::Contains, "mint", "peppermnt.txt", true, true));
    assert!(match_decision(SearchType::Fuzzy, "p", "n", true, false));
    assert!(!match_decision(SearchType::Fuzzy, "p", "n", false, true));
    assert!(match_decision(SearchType::Pattern, "p", "n", false, true));
    assert!(!match_decision(SearchType::Pattern, "p", "n", true, false));
    assert!(match_decision(SearchType::Simple, "n", "n", false, false));
    assert!(!match_decision(SearchType::Simple, "n", "N", false, false));
    assert!(match_decision(SearchType::NoSearch, "p", "n", false, false));
}

#[test]
fn visit_entry_outcomes() {
    let mut f = finder_with(SearchType::Contains, Some("song"));
    let home = "/Users/me";
    assert_eq!(
        f.visit_entry("/Users/me/Pictures/Photos Library.photoslibrary", true, home, ALL),
        EntryOutcome::PhotosLibrarySkipped
    );
    assert_eq!(f.visit_entry("/Users/me/Music", true, home, ALL), EntryOutcome::Directory);
    assert_eq!(f.visit_entry("/Users/me/song.png", false, home, AUDIO_ONLY), EntryOutcome::FilteredByType);
    assert_eq!(f.visit_entry("/Users/me/tune.mp3", false, home, AUDIO_ONLY), EntryOutcome::FilteredByPattern);
    assert!(f.list.is_empty());
    assert_eq!(f.visit_entry("/Users/me/My SONG.MP3", false, home, AUDIO_ONLY), EntryOutcome::Added);
    assert_eq!(f.list.len(), 1);
    assert_eq!(f.list[0].name, "my song.mp3");
    assert_eq!(f.list[0].path, "/Users/me/My SONG.MP3");
    assert_eq!(f.visit_entry("/Users/me/song2.mp3", false, home, ALL), EntryOutcome::Added);
    assert_eq!(f.list.len(), 2);
    assert_eq!(f.list[0].name, "my song.mp3");
    assert_eq!(f.list[1].name, "song2.mp3");
}

#[test]
fn photos_library_walked_when_not_skipped() {
    let mut f = finder_with(SearchType::NoSearch, Some("x"));
    f.set_search_flags(false, true);
    assert!(!f.flag_skip_photos);
    assert_eq!(
        f.visit_entry("/h/Pictures/Photos Library.photoslibrary", true, "/h", ALL),
        EntryOutcome::Directory
    );
}

#[test]
fn set_search_flags_follows_options() {
    let mut f = Finder::new();
    f.set_search_flags(true, false);
    assert!(!f.flag_skip_hidden);
    assert!(f.flag_skip_photos);
    f.set_search_flags(false, true);
    assert!(f.flag_skip_hidden);
    assert!(!f.flag_skip_photos);
}

#[test]
fn try_visit_entry_errors_leave_finder_unchanged() {
    let mut f = finder_with(SearchType::Pattern, Some("[bad"));
    assert_eq!(f.try_visit_entry("/x/a.mp3", false, "/h", ALL), Err(FinderError::InvalidPattern));
    assert!(f.list.is_empty());
    assert_eq!(f.try_visit_entry("/x/dir", true, "/h", ALL), Ok(EntryOutcome::Directory));
    let mut g = finder_with(SearchType::Contains, Some("a"));
    assert_eq!(g.try_visit_entry("/x/..", false, "/h", ALL), Err(FinderError::MissingFileName));
    assert_eq!(g.try_visit_entry("/x/a.mp3", false, "/h", ALL), Ok(EntryOutcome::Added));
    assert_eq!(g.list.len(), 1);
}

#[test]
fn nothing_inside_photos_library_is_listed() {
    let mut f = finder_with(SearchType::NoSearch, Some("x"));
    let home = "/Users/me";
    assert_eq!(
        f.visit_entry("/Users/me/Pictures/Photos Library.photoslibrary/originals/a.jpg", false, home, ALL),
        EntryOutcome::PhotosLibrarySkipped
    );
    assert_eq!(
        f.try_visit_entry("/Users/me/Pictures/Photos Library.photoslibrary/db", true, home, ALL),
        Ok(EntryOutcome::PhotosLibrarySkipped)
    );
    assert!(f.list.is_empty());
    assert_eq!(
        f.visit_entry("/Users/me/Pictures/Photos Library.photoslibrary2/a.jpg", false, home, ALL),
        EntryOutcome::Added
    );
    assert_eq!(f.list.len(), 1);
}

#[test]
fn contains_search_ignores_unicode_case() {
    let mut f = finder_with(SearchType::Contains, Some("ä"));
    assert_eq!(f.filter_pattern_match("/x/BÄR.txt", ALL), Some("/x/BÄR.txt".to_string()));
    assert!(match_decision(SearchType::Contains, "ÉTÉ", "été.mp3", false, false));
    assert!(!match_decision(SearchType::Contains, "ö", "bar.txt", false, false));
}

#[test]
fn extension_case_does_not_change_type() {
    assert_eq!(Finder::get_file_type("a.JpG"), Finder::get_file_type("a.jpg"));
    assert_eq!(Finder::get_file_type("a.FLAC"), FileType::Audio);
    assert_eq!(Finder::get_file_type("a.DocX"), FileType::Document);
}
