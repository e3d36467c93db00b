//! What holds of the finder across all inputs.

use vstd::prelude::*;

use crate::cli::{file_filter_arg_ok, file_filter_of, is_digit, names_slot, search_type_for_char, selects_search_type};
use crate::enums::{FileType, SearchType};
use crate::finder::{
    classify_extension, file_type_of_path, in_photos_library, match_rule, pattern_keeps, type_allowed, EntryOutcome,
    Finder,
};
use crate::outside::{ascii_lowercase, path_extension, path_file_name, regex_compiles, regex_finds, skim_char_eq, skim_matches, skim_subsequence, unicode_lowercase};
use crate::stream::{child_action_rule, ChildAction};
use crate::text::occurs_at;

verus! {

/// The option value `0` ("All") lets files of every type through: a filter
/// read from a value holding `0` passes every type.
pub proof fn lemma_zero_selects_all_types(s: Seq<char>, t: FileType)
    requires
        exists|i: int| 0 <= i < s.len() && #[trigger] s[i] == '0',
    ensures
        type_allowed(file_filter_of(s), t),
{
    let i = choose|i: int| 0 <= i < s.len() && #[trigger] s[i] == '0';
    assert(names_slot(s, 0)) by {
        assert(s[i] as int - '0' as int == 0);
    }
}

/// A filter whose first slot is on passes every type.
pub proof fn lemma_all_slot_passes_every_type(filter: Seq<bool>, t: FileType)
    requires
        filter.len() == 7,
        filter[0],
    ensures
        type_allowed(filter, t),
{
}

/// A Contains search ignores case: a file whose name, lowercased, holds the
/// lowercased pattern is found.
pub proof fn lemma_contains_finds_case_insensitively(
    pattern: Seq<char>,
    name: Seq<char>,
    i: int,
    fuzzy_found: bool,
    regex_found: bool,
)
    requires
        occurs_at(unicode_lowercase(name), unicode_lowercase(pattern), i),
    ensures
        match_rule(SearchType::Contains, pattern, name, fuzzy_found, regex_found),
{
}

/// Names that lowercase alike get the same answer from a Contains search, and
/// so do patterns that lowercase alike.
pub proof fn lemma_contains_ignores_case(
    pattern1: Seq<char>,
    pattern2: Seq<char>,
    name1: Seq<char>,
    name2: Seq<char>,
    fuzzy_found: bool,
    regex_found: bool,
)
    requires
        unicode_lowercase(name1) == unicode_lowercase(name2),
        unicode_lowercase(pattern1) == unicode_lowercase(pattern2),
    ensures
        match_rule(SearchType::Contains, pattern1, name1, fuzzy_found, regex_found)
            == match_rule(SearchType::Contains, pattern2, name2, fuzzy_found, regex_found),
{
}

/// Extensions that differ only in ASCII case name the same type.
pub proof fn lemma_extension_type_ignores_ascii_case(e1: Seq<char>, e2: Seq<char>)
    requires
        ascii_lowercase(e1) == ascii_lowercase(e2),
    ensures
        classify_extension(ascii_lowercase(e1)) == classify_extension(ascii_lowercase(e2)),
{
}

/// With no pattern no file passes the search, whatever its type.
pub proof fn lemma_no_pattern_keeps_nothing(st: SearchType, path: Seq<char>, name: Seq<char>)
    ensures
        !pattern_keeps(st, None, path, name),
{
}

/// With a pattern and no search algorithm every file passes.
pub proof fn lemma_no_search_keeps_everything(pattern: Seq<char>, path: Seq<char>, name: Seq<char>)
    ensures
        pattern_keeps(SearchType::NoSearch, Some(pattern), path, name),
{
}

/// A Simple search keeps exactly the files whose name is the pattern.
pub proof fn lemma_simple_is_exact_name(pattern: Seq<char>, path: Seq<char>, name: Seq<char>)
    ensures
        pattern_keeps(SearchType::Simple, Some(pattern), path, name) <==> name == pattern,
{
}

/// An empty fuzzy pattern keeps every file.
pub proof fn lemma_empty_fuzzy_pattern_keeps_everything(path: Seq<char>, name: Seq<char>)
    ensures
        pattern_keeps(SearchType::Fuzzy, Some(Seq::<char>::empty()), path, name),
{
    assert(skim_matches(path, Seq::<char>::empty()));
}

/// A fuzzy search finds every path that holds the pattern's characters in
/// order exactly as written, whatever case rule it then uses.
pub proof fn lemma_fuzzy_finds_exact_subsequence(path: Seq<char>, pattern: Seq<char>, cs: bool)
    requires
        skim_subsequence(path, pattern, true),
    ensures
        skim_subsequence(path, pattern, cs),
    decreases path.len(),
{
    if pattern.len() > 0 && path.len() > 0 {
        if path[0] == pattern[0] {
            lemma_fuzzy_finds_exact_subsequence(path.drop_first(), pattern.drop_first(), cs);
        } else {
            lemma_fuzzy_finds_exact_subsequence(path.drop_first(), pattern, cs);
            if skim_char_eq(path[0], pattern[0], cs) {
                lemma_drop_first_keeps_subsequence(path.drop_first(), pattern, cs);
            }
        }
    }
}

/// Dropping the first character of a pattern keeps it found.
proof fn lemma_drop_first_keeps_subsequence(text: Seq<char>, pattern: Seq<char>, cs: bool)
    requires
        pattern.len() > 0,
        skim_subsequence(text, pattern, cs),
    ensures
        skim_subsequence(text, pattern.drop_first(), cs),
    decreases text.len(), 0int,
{
    if text.len() > 0 {
        assert(text =~= seq![text[0]] + text.drop_first());
        if skim_char_eq(text[0], pattern[0], cs) {
            lemma_extend_text(text.drop_first(), pattern.drop_first(), cs, text[0]);
        } else {
            lemma_drop_first_keeps_subsequence(text.drop_first(), pattern, cs);
            lemma_extend_text(text.drop_first(), pattern.drop_first(), cs, text[0]);
        }
    }
}

/// A pattern found in a text is found in the text with a character put before it.
proof fn lemma_extend_text(text: Seq<char>, pattern: Seq<char>, cs: bool, c: char)
    requires
        skim_subsequence(text, pattern, cs),
    ensures
        skim_subsequence(seq![c] + text, pattern, cs),
    decreases text.len(), 1int,
{
    let full = seq![c] + text;
    assert(full.drop_first() =~= text);
    assert(full[0] == c);
    if pattern.len() > 0 && skim_char_eq(c, pattern[0], cs) {
        lemma_drop_first_keeps_subsequence(text, pattern, cs);
    }
}

/// The list of found files only grows: dealing with an entry keeps every
/// file found before, in its place.
pub proof fn lemma_list_only_grows<'a>(
    f: Finder<'a>,
    after: Finder<'a>,
    path: Seq<char>,
    is_dir: bool,
    home: Seq<char>,
    filter: Seq<bool>,
    o: EntryOutcome,
)
    requires
        f.visited(&after, path, is_dir, home, filter, o),
    ensures
        f.list@.len() <= after.list@.len(),
        after.list@.subrange(0, f.list@.len() as int) == f.list@,
{
    if o != EntryOutcome::Added {
        assert(after.list@.subrange(0, f.list@.len() as int) =~= f.list@);
    }
}

/// Directories are never listed, and neither is the Photos Library, nor
/// anything inside it, while it is skipped.
pub proof fn lemma_directories_and_photos_never_listed<'a>(
    f: Finder<'a>,
    after: Finder<'a>,
    path: Seq<char>,
    is_dir: bool,
    home: Seq<char>,
    filter: Seq<bool>,
    o: EntryOutcome,
)
    requires
        f.visited(&after, path, is_dir, home, filter, o),
        is_dir || (f.flag_skip_photos && in_photos_library(path, home)),
    ensures
        after.list@ == f.list@,
{
}

/// A file is listed exactly when its type passes the filter and it passes the
/// search (the Photos Library aside), and then under its own path.
pub proof fn lemma_listed_iff_both_filters_pass<'a>(
    f: Finder<'a>,
    after: Finder<'a>,
    path: Seq<char>,
    home: Seq<char>,
    filter: Seq<bool>,
    o: EntryOutcome,
)
    requires
        f.visited(&after, path, false, home, filter, o),
        !(f.flag_skip_photos && in_photos_library(path, home)),
    ensures
        (after.list@.len() == f.list@.len() + 1) <==> (type_allowed(
            filter,
            crate::finder::file_type_of_path(path),
        ) && f.keeps(path)),
        after.list@.len() == f.list@.len() + 1 ==> after.list@.last().path@ == path,
{
}

/// A file whose extension, lowercased, is jpg, png, heic, jpeg, tiff, tif, psd, tga, thm
/// or dds is an image.
pub proof fn lemma_image_extensions(path: Seq<char>, e: Seq<char>)
    requires
        path_extension(path) == Some(e),
        unicode_lowercase(e) == "jpg"@ || unicode_lowercase(e) == "png"@
            || unicode_lowercase(e) == "heic"@ || unicode_lowercase(e) == "jpeg"@
            || unicode_lowercase(e) == "tiff"@ || unicode_lowercase(e) == "tif"@
            || unicode_lowercase(e) == "psd"@ || unicode_lowercase(e) == "tga"@
            || unicode_lowercase(e) == "thm"@ || unicode_lowercase(e) == "dds"@,
    ensures
        file_type_of_path(path) == FileType::Image,
{
    let l = unicode_lowercase(e);
    reveal_strlit("jpg");
    assert("jpg"@.len() == 3 && "jpg"@[0] == 'j' && "jpg"@[1] == 'p' && "jpg"@[2] == 'g');
    reveal_strlit("png");
    assert("png"@.len() == 3 && "png"@[0] == 'p' && "png"@[1] == 'n' && "png"@[2] == 'g');
    reveal_strlit("heic");
    assert("heic"@.len() == 4 && "heic"@[0] == 'h' && "heic"@[1] == 'e' && "heic"@[2] == 'i' && "heic"@[3] == 'c');
    reveal_strlit("jpeg");
    assert("jpeg"@.len() == 4 && "jpeg"@[0] == 'j' && "jpeg"@[1] == 'p' && "jpeg"@[2] == 'e' && "jpeg"@[3] == 'g');
    reveal_strlit("tiff");
    assert("tiff"@.len() == 4 && "tiff"@[0] == 't' && "tiff"@[1] == 'i' && "tiff"@[2] == 'f' && "tiff"@[3] == 'f');
    reveal_strlit("tif");
    assert("tif"@.len() == 3 && "tif"@[0] == 't' && "tif"@[1] == 'i' && "tif"@[2] == 'f');
    reveal_strlit("psd");
    assert("psd"@.len() == 3 && "psd"@[0] == 'p' && "psd"@[1] == 's' && "psd"@[2] == 'd');
    reveal_strlit("tga");
    assert("tga"@.len() == 3 && "tga"@[0] == 't' && "tga"@[1] == 'g' && "tga"@[2] == 'a');
    reveal_strlit("thm");
    assert("thm"@.len() == 3 && "thm"@[0] == 't' && "thm"@[1] == 'h' && "thm"@[2] == 'm');
    reveal_strlit("dds");
    assert("dds"@.len() == 3 && "dds"@[0] == 'd' && "dds"@[1] == 'd' && "dds"@[2] == 's');
    assert(classify_extension(l) == FileType::Image);
}

/// A file whose extension, lowercased, is avi, mov, mpg, mpeg or mp4 is a video.
pub proof fn lemma_video_extensions(path: Seq<char>, e: Seq<char>)
    requires
        path_extension(path) == Some(e),
        unicode_lowercase(e) == "avi"@ || unicode_lowercase(e) == "mov"@
            || unicode_lowercase(e) == "mpg"@ || unicode_lowercase(e) == "mpeg"@
            || unicode_lowercase(e) == "mp4"@,
    ensures
        file_type_of_path(path) == FileType::Video,
{
    let l = unicode_lowercase(e);
    reveal_strlit("jpg");
    assert("jpg"@.len() == 3 && "jpg"@[0] == 'j' && "jpg"@[1] == 'p' && "jpg"@[2] == 'g');
    reveal_strlit("png");
    assert("png"@.len() == 3 && "png"@[0] == 'p' && "png"@[1] == 'n' && "png"@[2] == 'g');
    reveal_strlit("heic");
    assert("heic"@.len() == 4 && "heic"@[0] == 'h' && "heic"@[1] == 'e' && "heic"@[2] == 'i' && "heic"@[3] == 'c');
    reveal_strlit("jpeg");
    assert("jpeg"@.len() == 4 && "jpeg"@[0] == 'j' && "jpeg"@[1] == 'p' && "jpeg"@[2] == 'e' && "jpeg"@[3] == 'g');
    reveal_strlit("tiff");
    assert("tiff"@.len() == 4 && "tiff"@[0] == 't' && "tiff"@[1] == 'i' && "tiff"@[2] == 'f' && "tiff"@[3] == 'f');
    reveal_strlit("tif");
    assert("tif"@.len() == 3 && "tif"@[0] == 't' && "tif"@[1] == 'i' && "tif"@[2] == 'f');
    reveal_strlit("psd");
    assert("psd"@.len() == 3 && "psd"@[0] == 'p' && "psd"@[1] == 's' && "psd"@[2] == 'd');
    reveal_strlit("tga");
    assert("tga"@.len() == 3 && "tga"@[0] == 't' && "tga"@[1] == 'g' && "tga"@[2] == 'a');
    reveal_strlit("thm");
    assert("thm"@.len() == 3 && "thm"@[0] == 't' && "thm"@[1] == 'h' && "thm"@[2] == 'm');
    reveal_strlit("dds");
    assert("dds"@.len() == 3 && "dds"@[0] == 'd' && "dds"@[1] == 'd' && "dds"@[2] == 's');
    reveal_strlit("avi");
    assert("avi"@.len() == 3 && "avi"@[0] == 'a' && "avi"@[1] == 'v' && "avi"@[2] == 'i');
    reveal_strlit("mov");
    assert("mov"@.len() == 3 && "mov"@[0] == 'm' && "mov"@[1] == 'o' && "mov"@[2] == 'v');
    reveal_strlit("mpg");
    assert("mpg"@.len() == 3 && "mpg"@[0] == 'm' && "mpg"@[1] == 'p' && "mpg"@[2] == 'g');
    reveal_strlit("mpeg");
    assert("mpeg"@.len() == 4 && "mpeg"@[0] == 'm' && "mpeg"@[1] == 'p' && "mpeg"@[2] == 'e' && "mpeg"@[3] == 'g');
    reveal_strlit("mp4");
    assert("mp4"@.len() == 3 && "mp4"@[0] == 'm' && "mp4"@[1] == 'p' && "mp4"@[2] == '4');
    assert(classify_extension(l) == FileType::Video);
}

/// A file whose extension, lowercased, is doc, docx, txt, vcs, xls, pdf, ppt or zip is a
/// document.
pub proof fn lemma_document_extensions(path: Seq<char>, e: Seq<char>)
    requires
        path_extension(path) == Some(e),
        unicode_lowercase(e) == "doc"@ || unicode_lowercase(e) == "docx"@
            || unicode_lowercase(e) == "txt"@ || unicode_lowercase(e) == "vcs"@
            || unicode_lowercase(e) == "xls"@ || unicode_lowercase(e) == "pdf"@
            || unicode_lowercase(e) == "ppt"@ || unicode_lowercase(e) == "zip"@,
    ensures
        file_type_of_path(path) == FileType::Document,
{
    let l = unicode_lowercase(e);
    reveal_strlit("jpg");
    assert("jpg"@.len() == 3 && "jpg"@[0] == 'j' && "jpg"@[1] == 'p' && "jpg"@[2] == 'g');
    reveal_strlit("png");
    assert("png"@.len() == 3 && "png"@[0] == 'p' && "png"@[1] == 'n' && "png"@[2] == 'g');
    reveal_strlit("heic");
    assert("heic"@.len() == 4 && "heic"@[0] == 'h' && "heic"@[1] == 'e' && "heic"@[2] == 'i' && "heic"@[3] == 'c');
    reveal_strlit("jpeg");
    assert("jpeg"@.len() == 4 && "jpeg"@[0] == 'j' && "jpeg"@[1] == 'p' && "jpeg"@[2] == 'e' && "jpeg"@[3] == 'g');
    reveal_strlit("tiff");
    assert("tiff"@.len() == 4 && "tiff"@[0] == 't' && "tiff"@[1] == 'i' && "tiff"@[2] == 'f' && "tiff"@[3] == 'f');
    reveal_strlit("tif");
    assert("tif"@.len() == 3 && "tif"@[0] == 't' && "tif"@[1] == 'i' && "tif"@[2] == 'f');
    reveal_strlit("psd");
    assert("psd"@.len() == 3 && "psd"@[0] == 'p' && "psd"@[1] == 's' && "psd"@[2] == 'd');
    reveal_strlit("tga");
    assert("tga"@.len() == 3 && "tga"@[0] == 't' && "tga"@[1] == 'g' && "tga"@[2] == 'a');
    reveal_strlit("thm");
    assert("thm"@.len() == 3 && "thm"@[0] == 't' && "thm"@[1] == 'h' && "thm"@[2] == 'm');
    reveal_strlit("dds");
    assert("dds"@.len() == 3 && "dds"@[0] == 'd' && "dds"@[1] == 'd' && "dds"@[2] == 's');
    reveal_strlit("avi");
    assert("avi"@.len() == 3 && "avi"@[0] == 'a' && "avi"@[1] == 'v' && "avi"@[2] == 'i');
    reveal_strlit("mov");
    assert("mov"@.len() == 3 && "mov"@[0] == 'm' && "mov"@[1] == 'o' && "mov"@[2] == 'v');
    reveal_strlit("mpg");
    assert("mpg"@.len() == 3 && "mpg"@[0] == 'm' && "mpg"@[1] == 'p' && "mpg"@[2] == 'g');
    reveal_strlit("mpeg");
    assert("mpeg"@.len() == 4 && "mpeg"@[0] == 'm' && "mpeg"@[1] == 'p' && "mpeg"@[2] == 'e' && "mpeg"@[3] == 'g');
    reveal_strlit("mp4");
    assert("mp4"@.len() == 3 && "mp4"@[0] == 'm' && "mp4"@[1] == 'p' && "mp4"@[2] == '4');
    reveal_strlit("doc");
    assert("doc"@.len() == 3 && "doc"@[0] == 'd' && "doc"@[1] == 'o' && "doc"@[2] == 'c');
    reveal_strlit("docx");
    assert("docx"@.len() == 4 && "docx"@[0] == 'd' && "docx"@[1] == 'o' && "docx"@[2] == 'c' && "docx"@[3] == 'x');
    reveal_strlit("txt");
    assert("txt"@.len() == 3 && "txt"@[0] == 't' && "txt"@[1] == 'x' && "txt"@[2] == 't');
    reveal_strlit("vcs");
    assert("vcs"@.len() == 3 && "vcs"@[0] == 'v' && "vcs"@[1] == 'c' && "vcs"@[2] == 's');
    reveal_strlit("xls");
    assert("xls"@.len() == 3 && "xls"@[0] == 'x' && "xls"@[1] == 'l' && "xls"@[2] == 's');
    reveal_strlit("pdf");
    assert("pdf"@.len() == 3 && "pdf"@[0] == 'p' && "pdf"@[1] == 'd' && "pdf"@[2] == 'f');
    reveal_strlit("ppt");
    assert("ppt"@.len() == 3 && "ppt"@[0] == 'p' && "ppt"@[1] == 'p' && "ppt"@[2] == 't');
    reveal_strlit("zip");
    assert("zip"@.len() == 3 && "zip"@[0] == 'z' && "zip"@[1] == 'i' && "zip"@[2] == 'p');
    assert(classify_extension(l) == FileType::Document);
}

/// A file whose extension, lowercased, is one of tta, sln, mogg, oga, wma, wav, vox, voc,
/// raw, ogg, mpc, mp3, m4p, m4b, m4a, gsm, flac, au, ape, amr, aiff, act, aax, aac, aa
/// or 3gp is an audio file.
pub proof fn lemma_audio_extensions(path: Seq<char>, e: Seq<char>)
    requires
        path_extension(path) == Some(e),
        unicode_lowercase(e) == "tta"@ || unicode_lowercase(e) == "sln"@
            || unicode_lowercase(e) == "mogg"@ || unicode_lowercase(e) == "oga"@
            || unicode_lowercase(e) == "wma"@ || unicode_lowercase(e) == "wav"@
            || unicode_lowercase(e) == "vox"@ || unicode_lowercase(e) == "voc"@
            || unicode_lowercase(e) == "raw"@ || unicode_lowercase(e) == "ogg"@
            || unicode_lowercase(e) == "mpc"@ || unicode_lowercase(e) == "mp3"@
            || unicode_lowercase(e) == "m4p"@ || unicode_lowercase(e) == "m4b"@
            || unicode_lowercase(e) == "m4a"@ || unicode_lowercase(e) == "gsm"@
            || unicode_lowercase(e) == "flac"@ || unicode_lowercase(e) == "au"@
            || unicode_lowercase(e) == "ape"@ || unicode_lowercase(e) == "amr"@
            || unicode_lowercase(e) == "aiff"@ || unicode_lowercase(e) == "act"@
            || unicode_lowercase(e) == "aax"@ || unicode_lowercase(e) == "aac"@
            || unicode_lowercase(e) == "aa"@ || unicode_lowercase(e) == "3gp"@,
    ensures
        file_type_of_path(path) == FileType::Audio,
{
    let l = unicode_lowercase(e);
    reveal_strlit("jpg");
    assert("jpg"@.len() == 3 && "jpg"@[0] == 'j' && "jpg"@[1] == 'p' && "jpg"@[2] == 'g');
    reveal_strlit("png");
    assert("png"@.len() == 3 && "png"@[0] == 'p' && "png"@[1] == 'n' && "png"@[2] == 'g');
    reveal_strlit("heic");
    assert("heic"@.len() == 4 && "heic"@[0] == 'h' && "heic"@[1] == 'e' && "heic"@[2] == 'i' && "heic"@[3] == 'c');
    reveal_strlit("jpeg");
    assert("jpeg"@.len() == 4 && "jpeg"@[0] == 'j' && "jpeg"@[1] == 'p' && "jpeg"@[2] == 'e' && "jpeg"@[3] == 'g');
    reveal_strlit("tiff");
    assert("tiff"@.len() == 4 && "tiff"@[0] == 't' && "tiff"@[1] == 'i' && "tiff"@[2] == 'f' && "tiff"@[3] == 'f');
    reveal_strlit("tif");
    assert("tif"@.len() == 3 && "tif"@[0] == 't' && "tif"@[1] == 'i' && "tif"@[2] == 'f');
    reveal_strlit("psd");
    assert("psd"@.len() == 3 && "psd"@[0] == 'p' && "psd"@[1] == 's' && "psd"@[2] == 'd');
    reveal_strlit("tga");
    assert("tga"@.len() == 3 && "tga"@[0] == 't' && "tga"@[1] == 'g' && "tga"@[2] == 'a');
    reveal_strlit("thm");
    assert("thm"@.len() == 3 && "thm"@[0] == 't' && "thm"@[1] == 'h' && "thm"@[2] == 'm');
    reveal_strlit("dds");
    assert("dds"@.len() == 3 && "dds"@[0] == 'd' && "dds"@[1] == 'd' && "dds"@[2] == 's');
    reveal_strlit("avi");
    assert("avi"@.len() == 3 && "avi"@[0] == 'a' && "avi"@[1] == 'v' && "avi"@[2] == 'i');
    reveal_strlit("mov");
    assert("mov"@.len() == 3 && "mov"@[0] == 'm' && "mov"@[1] == 'o' && "mov"@[2] == 'v');
    reveal_strlit("mpg");
    assert("mpg"@.len() == 3 && "mpg"@[0] == 'm' && "mpg"@[1] == 'p' && "mpg"@[2] == 'g');
    reveal_strlit("mpeg");
    assert("mpeg"@.len() == 4 && "mpeg"@[0] == 'm' && "mpeg"@[1] == 'p' && "mpeg"@[2] == 'e' && "mpeg"@[3] == 'g');
    reveal_strlit("mp4");
    assert("mp4"@.len() == 3 && "mp4"@[0] == 'm' && "mp4"@[1] == 'p' && "mp4"@[2] == '4');
    reveal_strlit("doc");
    assert("doc"@.len() == 3 && "doc"@[0] == 'd' && "doc"@[1] == 'o' && "doc"@[2] == 'c');
    reveal_strlit("docx");
    assert("docx"@.len() == 4 && "docx"@[0] == 'd' && "docx"@[1] == 'o' && "docx"@[2] == 'c' && "docx"@[3] == 'x');
    reveal_strlit("txt");
    assert("txt"@.len() == 3 && "txt"@[0] == 't' && "txt"@[1] == 'x' && "txt"@[2] == 't');
    reveal_strlit("vcs");
    assert("vcs"@.len() == 3 && "vcs"@[0] == 'v' && "vcs"@[1] == 'c' && "vcs"@[2] == 's');
    reveal_strlit("xls");
    assert("xls"@.len() == 3 && "xls"@[0] == 'x' && "xls"@[1] == 'l' && "xls"@[2] == 's');
    reveal_strlit("pdf");
    assert("pdf"@.len() == 3 && "pdf"@[0] == 'p' && "pdf"@[1] == 'd' && "pdf"@[2] == 'f');
    reveal_strlit("ppt");
    assert("ppt"@.len() == 3 && "ppt"@[0] == 'p' && "ppt"@[1] == 'p' && "ppt"@[2] == 't');
    reveal_strlit("zip");
    assert("zip"@.len() == 3 && "zip"@[0] == 'z' && "zip"@[1] == 'i' && "zip"@[2] == 'p');
    reveal_strlit("tta");
    assert("tta"@.len() == 3 && "tta"@[0] == 't' && "tta"@[1] == 't' && "tta"@[2] == 'a');
    reveal_strlit("sln");
    assert("sln"@.len() == 3 && "sln"@[0] == 's' && "sln"@[1] == 'l' && "sln"@[2] == 'n');
    reveal_strlit("mogg");
    assert("mogg"@.len() == 4 && "mogg"@[0] == 'm' && "mogg"@[1] == 'o' && "mogg"@[2] == 'g' && "mogg"@[3] == 'g');
    reveal_strlit("oga");
    assert("oga"@.len() == 3 && "oga"@[0] == 'o' && "oga"@[1] == 'g' && "oga"@[2] == 'a');
    reveal_strlit("wma");
    assert("wma"@.len() == 3 && "wma"@[0] == 'w' && "wma"@[1] == 'm' && "wma"@[2] == 'a');
    reveal_strlit("wav");
    assert("wav"@.len() == 3 && "wav"@[0] == 'w' && "wav"@[1] == 'a' && "wav"@[2] == 'v');
    reveal_strlit("vox");
    assert("vox"@.len() == 3 && "vox"@[0] == 'v' && "vox"@[1] == 'o' && "vox"@[2] == 'x');
    reveal_strlit("voc");
    assert("voc"@.len() == 3 && "voc"@[0] == 'v' && "voc"@[1] == 'o' && "voc"@[2] == 'c');
    reveal_strlit("raw");
    assert("raw"@.len() == 3 && "raw"@[0] == 'r' && "raw"@[1] == 'a' && "raw"@[2] == 'w');
    reveal_strlit("ogg");
    assert("ogg"@.len() == 3 && "ogg"@[0] == 'o' && "ogg"@[1] == 'g' && "ogg"@[2] == 'g');
    reveal_strlit("mpc");
    assert("mpc"@.len() == 3 && "mpc"@[0] == 'm' && "mpc"@[1] == 'p' && "mpc"@[2] == 'c');
    reveal_strlit("mp3");
    assert("mp3"@.len() == 3 && "mp3"@[0] == 'm' && "mp3"@[1] == 'p' && "mp3"@[2] == '3');
    reveal_strlit("m4p");
    assert("m4p"@.len() == 3 && "m4p"@[0] == 'm' && "m4p"@[1] == '4' && "m4p"@[2] == 'p');
    reveal_strlit("m4b");
    assert("m4b"@.len() == 3 && "m4b"@[0] == 'm' && "m4b"@[1] == '4' && "m4b"@[2] == 'b');
    reveal_strlit("m4a");
    assert("m4a"@.len() == 3 && "m4a"@[0] == 'm' && "m4a"@[1] == '4' && "m4a"@[2] == 'a');
    reveal_strlit("gsm");
    assert("gsm"@.len() == 3 && "gsm"@[0] == 'g' && "gsm"@[1] == 's' && "gsm"@[2] == 'm');
    reveal_strlit("flac");
    assert("flac"@.len() == 4 && "flac"@[0] == 'f' && "flac"@[1] == 'l' && "flac"@[2] == 'a' && "flac"@[3] == 'c');
    reveal_strlit("au");
    assert("au"@.len() == 2 && "au"@[0] == 'a' && "au"@[1] == 'u');
    reveal_strlit("ape");
    assert("ape"@.len() == 3 && "ape"@[0] == 'a' && "ape"@[1] == 'p' && "ape"@[2] == 'e');
    reveal_strlit("amr");
    assert("amr"@.len() == 3 && "amr"@[0] == 'a' && "amr"@[1] == 'm' && "amr"@[2] == 'r');
    reveal_strlit("aiff");
    assert("aiff"@.len() == 4 && "aiff"@[0] == 'a' && "aiff"@[1] == 'i' && "aiff"@[2] == 'f' && "aiff"@[3] == 'f');
    reveal_strlit("act");
    assert("act"@.len() == 3 && "act"@[0] == 'a' && "act"@[1] == 'c' && "act"@[2] == 't');
    reveal_strlit("aax");
    assert("aax"@.len() == 3 && "aax"@[0] == 'a' && "aax"@[1] == 'a' && "aax"@[2] == 'x');
    reveal_strlit("aac");
    assert("aac"@.len() == 3 && "aac"@[0] == 'a' && "aac"@[1] == 'a' && "aac"@[2] == 'c');
    reveal_strlit("aa");
    assert("aa"@.len() == 2 && "aa"@[0] == 'a' && "aa"@[1] == 'a');
    reveal_strlit("3gp");
    assert("3gp"@.len() == 3 && "3gp"@[0] == '3' && "3gp"@[1] == 'g' && "3gp"@[2] == 'p');
    assert(classify_extension(l) == FileType::Audio);
}

/// A file with an extension that, lowercased, is none of the listed ones is of
/// type Other; a file without an extension is of type Empty.
pub proof fn lemma_other_and_empty_types(path: Seq<char>)
    ensures
        path_extension(path) is None ==> file_type_of_path(path) == FileType::Empty,
        path_extension(path) matches Some(e) ==> ({
            let l = unicode_lowercase(e);
            l != "jpg"@ && l != "png"@ && l != "heic"@ && l != "jpeg"@ && l != "tiff"@
            && l != "tif"@ && l != "psd"@ && l != "tga"@ && l != "thm"@ && l != "dds"@
            && l != "avi"@ && l != "mov"@ && l != "mpg"@ && l != "mpeg"@ && l != "mp4"@
            && l != "doc"@ && l != "docx"@ && l != "txt"@ && l != "vcs"@ && l != "xls"@
            && l != "pdf"@ && l != "ppt"@ && l != "zip"@ && l != "tta"@ && l != "sln"@
            && l != "mogg"@ && l != "oga"@ && l != "wma"@ && l != "wav"@ && l != "vox"@
            && l != "voc"@ && l != "raw"@ && l != "ogg"@ && l != "mpc"@ && l != "mp3"@
            && l != "m4p"@ && l != "m4b"@ && l != "m4a"@ && l != "gsm"@ && l != "flac"@
            && l != "au"@ && l != "ape"@ && l != "amr"@ && l != "aiff"@ && l != "act"@
            && l != "aax"@ && l != "aac"@ && l != "aa"@ && l != "3gp"@
        } ==> file_type_of_path(path) == FileType::Other),
{
}

/// What each search type keeps, stated directly: Contains keeps a file
/// exactly when the lowercased pattern stands as one unbroken block inside the
/// lowercased name; Fuzzy and Pattern follow their matchers; Simple asks for
/// the name itself; NoSearch keeps everything.
pub proof fn lemma_search_type_rules(
    st: SearchType,
    pattern: Seq<char>,
    name: Seq<char>,
    fuzzy_found: bool,
    regex_found: bool,
)
    ensures
        st == SearchType::Contains ==> (match_rule(st, pattern, name, fuzzy_found, regex_found)
            <==> exists|i: int|
            0 <= i && i + unicode_lowercase(pattern).len() <= unicode_lowercase(name).len()
                && #[trigger] unicode_lowercase(name).subrange(
                i,
                i + unicode_lowercase(pattern).len(),
            ) == unicode_lowercase(pattern)),
        st == SearchType::Fuzzy ==> (match_rule(st, pattern, name, fuzzy_found, regex_found)
            <==> fuzzy_found),
        st == SearchType::Pattern ==> (match_rule(st, pattern, name, fuzzy_found, regex_found)
            <==> regex_found),
        st == SearchType::Simple ==> (match_rule(st, pattern, name, fuzzy_found, regex_found)
            <==> name == pattern),
        st == SearchType::NoSearch ==> match_rule(st, pattern, name, fuzzy_found, regex_found),
{
    if st == SearchType::Contains {
        let ln = unicode_lowercase(name);
        let lp = unicode_lowercase(pattern);
        if match_rule(st, pattern, name, fuzzy_found, regex_found) {
            let i = choose|i: int| occurs_at(ln, lp, i);
            assert(0 <= i && i + lp.len() <= ln.len() && ln.subrange(i, i + lp.len()) == lp);
        }
        if exists|i: int|
            0 <= i && i + lp.len() <= ln.len() && #[trigger] ln.subrange(i, i + lp.len()) == lp {
            let i = choose|i: int|
                0 <= i && i + lp.len() <= ln.len() && #[trigger] ln.subrange(i, i + lp.len()) == lp;
            assert(occurs_at(ln, lp, i));
        }
    }
}

/// Which slot of a file-type filter lets each type through, by the option
/// numbers the command line documents: All 0, Audio 1, Document 2, Empty 3,
/// Image 4, Other 5, Video 6; slot 0 lets every type through.
pub proof fn lemma_filter_slot_numbers(f: Seq<bool>)
    requires
        f.len() == 7,
    ensures
        type_allowed(f, FileType::All) <==> f[0],
        type_allowed(f, FileType::Audio) <==> f[0] || f[1],
        type_allowed(f, FileType::Document) <==> f[0] || f[2],
        type_allowed(f, FileType::Empty) <==> f[0] || f[3],
        type_allowed(f, FileType::Image) <==> f[0] || f[4],
        type_allowed(f, FileType::Other) <==> f[0] || f[5],
        type_allowed(f, FileType::Video) <==> f[0] || f[6],
{
}

/// A filter with a single slot `k` on (not the "All" slot) lets through
/// exactly the files of the type numbered `k`; in particular `-f 4` passes
/// exactly the images and `-f 2` exactly the documents.
pub proof fn lemma_single_slot_filter(k: int, t: FileType)
    requires
        1 <= k < 7,
    ensures
        type_allowed(Seq::new(7, |i: int| i == k), t) <==> (k == 1 && t == FileType::Audio) || (k
            == 2 && t == FileType::Document) || (k == 3 && t == FileType::Empty) || (k == 4 && t
            == FileType::Image) || (k == 5 && t == FileType::Other) || (k == 6 && t
            == FileType::Video),
{
}

/// A streamed directory is left out exactly when its name begins with `.`,
/// whatever dots it holds later, and read otherwise; a streamed file is handed
/// out exactly when its name matches.
pub proof fn lemma_stream_child_rules(name: Seq<char>, name_matches: bool)
    ensures
        child_action_rule(name, true, name_matches) == ChildAction::Skip <==> (name.len() > 0
            && name[0] == '.'),
        child_action_rule(name, true, name_matches) == ChildAction::Visit <==> !(name.len() > 0
            && name[0] == '.'),
        child_action_rule(name, false, name_matches) == ChildAction::Keep <==> name_matches,
        child_action_rule(name, false, name_matches) == ChildAction::Skip <==> !name_matches,
{
}

/// Slot `k` of the filter read from a `--file_type` value is on exactly when
/// the digit for `k` stands somewhere in the value.
pub proof fn lemma_file_filter_digits(s: Seq<char>, k: int)
    requires
        0 <= k < 7,
    ensures
        file_filter_of(s).len() == 7,
        file_filter_of(s)[k] <==> exists|i: int| 0 <= i < s.len() && #[trigger] s[i] as int == '0' as int + k,
{
    if file_filter_of(s)[k] {
        let i = choose|i: int| 0 <= i < s.len() && is_digit(#[trigger] s[i]) && s[i] as int - '0' as int == k;
        assert(s[i] as int == '0' as int + k);
    }
    if exists|i: int| 0 <= i < s.len() && #[trigger] s[i] as int == '0' as int + k {
        let i = choose|i: int| 0 <= i < s.len() && #[trigger] s[i] as int == '0' as int + k;
        assert(is_digit(s[i]));
        assert(names_slot(s, k));
    }
}

/// Each search-type digit selects its type (`0` Contains, `1` Fuzzy, `2`
/// Pattern, `3` Simple), and every other character keeps the current one.
pub proof fn lemma_search_type_digits(current: SearchType, c: char)
    ensures
        c == '0' ==> search_type_for_char(current, c) == SearchType::Contains,
        c == '1' ==> search_type_for_char(current, c) == SearchType::Fuzzy,
        c == '2' ==> search_type_for_char(current, c) == SearchType::Pattern,
        c == '3' ==> search_type_for_char(current, c) == SearchType::Simple,
        c != '0' && c != '1' && c != '2' && c != '3' ==> search_type_for_char(current, c)
            == current,
        selects_search_type(c) <==> (c == '0' || c == '1' || c == '2' || c == '3'),
{
}

/// The Photos Library that a search skips is the directory
/// `Pictures/Photos Library.photoslibrary` under the home directory, with
/// everything inside it, and only while the finder skips it.
pub proof fn lemma_photos_library_location<'a>(f: Finder<'a>, path: Seq<char>, home: Seq<char>)
    ensures
        f.skips_photos(path, home) <==> f.flag_skip_photos && (path == home
            + "/Pictures/Photos Library.photoslibrary"@ || (home
            + "/Pictures/Photos Library.photoslibrary"@).len() + 1 <= path.len() && path.subrange(
            0,
            (home + "/Pictures/Photos Library.photoslibrary"@).len() + 1int,
        ) == home + "/Pictures/Photos Library.photoslibrary"@ + "/"@),
{
    reveal_strlit("/");
    assert("/"@.len() == 1);
}

/// Which file a search keeps, stated directly: never without a pattern; the
/// fuzzy matcher is held against the whole path; the regex against the file
/// name; Simple asks for the file name itself; Contains for the lowercased
/// pattern as one block of the lowercased file name; NoSearch keeps all.
pub proof fn lemma_pattern_keeps_rules(
    st: SearchType,
    pattern: Seq<char>,
    path: Seq<char>,
    name: Seq<char>,
)
    ensures
        !pattern_keeps(st, None, path, name),
        st == SearchType::Fuzzy ==> (pattern_keeps(st, Some(pattern), path, name) <==> skim_matches(
            path,
            pattern,
        )),
        st == SearchType::Pattern ==> (pattern_keeps(st, Some(pattern), path, name)
            <==> regex_finds(pattern, name)),
        st == SearchType::Simple ==> (pattern_keeps(st, Some(pattern), path, name) <==> name
            == pattern),
        st == SearchType::NoSearch ==> pattern_keeps(st, Some(pattern), path, name),
        st == SearchType::Contains ==> (pattern_keeps(st, Some(pattern), path, name)
            <==> exists|i: int|
            0 <= i && i + unicode_lowercase(pattern).len() <= unicode_lowercase(name).len()
                && #[trigger] unicode_lowercase(name).subrange(
                i,
                i + unicode_lowercase(pattern).len(),
            ) == unicode_lowercase(pattern)),
{
    lemma_search_type_rules(st, pattern, name, skim_matches(path, pattern), regex_finds(pattern, name));
}

/// A file added to the list is recorded under its own path, with its file
/// name in which each ASCII capital is made small and every other character
/// kept.
pub proof fn lemma_added_file_record<'a>(
    f: Finder<'a>,
    after: Finder<'a>,
    path: Seq<char>,
    is_dir: bool,
    home: Seq<char>,
    filter: Seq<bool>,
)
    requires
        f.visited(&after, path, is_dir, home, filter, EntryOutcome::Added),
    ensures
        after.list@.last().path@ == path,
        after.list@.last().name@.len() == path_file_name(path).unwrap().len(),
        forall|i: int|
            0 <= i < path_file_name(path).unwrap().len() ==> {
                let c = #[trigger] path_file_name(path).unwrap()[i];
                &&& ('A' <= c && c <= 'Z') ==> after.list@.last().name@[i] as int == c as int + 32
                &&& !('A' <= c && c <= 'Z') ==> after.list@.last().name@[i] == c
            },
{
}

/// A `--file_type` value can be read exactly when it holds none of the digits
/// 7, 8 and 9.
pub proof fn lemma_file_filter_arg_digits(s: Seq<char>)
    ensures
        file_filter_arg_ok(s) <==> forall|i: int|
            0 <= i < s.len() ==> #[trigger] s[i] != '7' && s[i] != '8' && s[i] != '9',
{
}

/// A search can be carried out unless it is a regex search whose pattern the
/// regex crate refuses.
pub proof fn lemma_usable_unless_bad_regex<'a>(f: Finder<'a>)
    ensures
        f.usable() <==> !(f.search_type == SearchType::Pattern && f.search_pattern is Some
            && !regex_compiles(f.search_pattern.unwrap()@)),
{
}

/// Only a file outside the skipped Photos Library whose type passes the
/// filter is held against the search pattern (and so only there can a missing
/// file name or a bad regex stop the walk).
pub proof fn lemma_only_typed_files_reach_the_pattern<'a>(
    f: Finder<'a>,
    path: Seq<char>,
    is_dir: bool,
    home: Seq<char>,
    filter: Seq<bool>,
)
    ensures
        f.reaches_pattern(path, is_dir, home, filter) <==> !is_dir && !f.skips_photos(path, home)
            && type_allowed(filter, file_type_of_path(path)),
{
}

} // verus!
