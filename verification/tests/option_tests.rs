use ffinder::cli::{file_filter_arg_is_ok, file_filter_from_arg, search_type_from_arg, walk_thread_count};
use ffinder::enums::{filter_slot_of, FileType, SearchType};
use ffinder::stream::{child_action, classify_stream_child, stream_pattern, ChildAction};

#[test]
fn search_type_digits() {
    assert_eq!(search_type_from_arg(SearchType::Contains, "0"), SearchType::Contains);
    assert_eq!(search_type_from_arg(SearchType::Contains, "1"), SearchType::Fuzzy);
    assert_eq!(search_type_from_arg(SearchType::Contains, "2"), SearchType::Pattern);
    assert_eq!(search_type_from_arg(SearchType::Contains, "3"), SearchType::Simple);
    assert_eq!(search_type_from_arg(SearchType::Contains, "13"), SearchType::Simple);
    assert_eq!(search_type_from_arg(SearchType::Contains, "3x1y"), SearchType::Fuzzy);
    assert_eq!(search_type_from_arg(SearchType::Fuzzy, "9"), SearchType::Fuzzy);
    assert_eq!(search_type_from_arg(SearchType::Simple, ""), SearchType::Simple);
}

#[test]
fn file_filter_digits() {
    assert_eq!(file_filter_from_arg("0"), [true, false, false, false, false, false, false]);
    assert_eq!(file_filter_from_arg("14"), [false, true, false, false, true, false, false]);
    assert_eq!(file_filter_from_arg("6a6"), [false, false, false, false, false, false, true]);
    assert_eq!(file_filter_from_arg("x"), [false; 7]);
    assert!(file_filter_arg_is_ok("0123456"));
    assert!(!file_filter_arg_is_ok("17"));
    assert!(!file_filter_arg_is_ok("9"));
}

#[test]
fn filter_slots() {
    assert_eq!(filter_slot_of(FileType::All), 0);
    assert_eq!(filter_slot_of(FileType::Audio), 1);
    assert_eq!(filter_slot_of(FileType::Video), 6);
}

#[test]
fn thread_counts() {
    assert_eq!(walk_thread_count(35), Some(35));
    assert_eq!(walk_thread_count(0), Some(0));
    assert_eq!(walk_thread_count(-1), None);
}

#[test]
fn stream_children() {
    assert_eq!(stream_pattern(), "minty");
    assert_eq!(child_action(".git", true, true), ChildAction::Skip);
    assert_eq!(child_action("src", true, false), ChildAction::Visit);
    assert_eq!(child_action("a.txt", false, true), ChildAction::Keep);
    assert_eq!(child_action("a.txt", false, false), ChildAction::Skip);
    assert_eq!(classify_stream_child("my_minty_notes.txt", false), Ok(ChildAction::Keep));
    assert_eq!(classify_stream_child("notes.txt", false), Ok(ChildAction::Skip));
    assert_eq!(classify_stream_child(".hidden", true), Ok(ChildAction::Skip));
    assert_eq!(classify_stream_child("minty", true), Ok(ChildAction::Visit));
}
