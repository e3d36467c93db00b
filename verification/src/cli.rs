//! How the command line's option values become search settings.

use vstd::prelude::*;

use crate::enums::SearchType;
use crate::text::chars_of;

verus! {

/// The search type that the option character `c` selects, `current` where it
/// selects none.
pub open spec fn search_type_for_char(current: SearchType, c: char) -> SearchType {
    if c == '0' {
        SearchType::Contains
    } else if c == '1' {
        SearchType::Fuzzy
    } else if c == '2' {
        SearchType::Pattern
    } else if c == '3' {
        SearchType::Simple
    } else {
        current
    }
}

/// The search type after reading the option value `s` from left to right,
/// starting from `current`.
pub open spec fn search_type_after(current: SearchType, s: Seq<char>) -> SearchType
    decreases s.len(),
{
    if s.len() == 0 {
        current
    } else {
        search_type_for_char(search_type_after(current, s.drop_last()), s.last())
    }
}

/// Whether `c` selects a search type.
pub open spec fn selects_search_type(c: char) -> bool {
    c == '0' || c == '1' || c == '2' || c == '3'
}

/// Reads the `--search_type` value: each of `0`, `1`, `2`, `3` selects
/// Contains, Fuzzy, Pattern or Simple, a later one overriding an earlier one,
/// and other characters are passed over.
pub fn search_type_from_arg(current: SearchType, val: &str) -> (t: SearchType)
    ensures
        t == search_type_after(current, val@),
{
    let chars = chars_of(val);
    let mut t = current;
    let mut i: usize = 0;
    while i < chars.len()
        invariant
            chars@ == val@,
            i <= chars@.len(),
            t == search_type_after(current, val@.subrange(0, i as int)),
        decreases chars@.len() - i,
    {
        let c = chars[i];
        assert(val@.subrange(0, i + 1).drop_last() =~= val@.subrange(0, i as int));
        if c == '0' {
            t = SearchType::Contains;
        } else if c == '1' {
            t = SearchType::Fuzzy;
        } else if c == '2' {
            t = SearchType::Pattern;
        } else if c == '3' {
            t = SearchType::Simple;
        }
        i = i + 1;
    }
    assert(val@.subrange(0, chars@.len() as int) =~= val@);
    t
}

/// The search type is the one of the last character that selects one, and
/// stays as it was where no character does.
pub proof fn lemma_last_selector_wins(current: SearchType, s: Seq<char>)
    ensures
        (forall|i: int| 0 <= i < s.len() ==> !selects_search_type(#[trigger] s[i]))
            ==> search_type_after(current, s) == current,
        forall|i: int|
            0 <= i < s.len() && selects_search_type(s[i]) && (forall|j: int|
                i < j < s.len() ==> !selects_search_type(#[trigger] s[j])) ==> search_type_after(
                current,
                s,
            ) == search_type_for_char(current, #[trigger] s[i]),
    decreases s.len(),
{
    if s.len() > 0 {
        let t = s.drop_last();
        lemma_last_selector_wins(current, t);
        assert forall|i: int|
            0 <= i < s.len() && selects_search_type(s[i]) && (forall|j: int|
                i < j < s.len() ==> !selects_search_type(#[trigger] s[j])) implies search_type_after(
            current,
            s,
        ) == search_type_for_char(current, #[trigger] s[i]) by {
            if i < s.len() - 1 {
                assert(!selects_search_type(s[s.len() - 1]));
                assert(t[i] == s[i]);
                assert forall|j: int| i < j < t.len() implies !selects_search_type(
                    #[trigger] t[j],
                ) by {
                    assert(t[j] == s[j]);
                }
            }
        }
        if forall|i: int| 0 <= i < s.len() ==> !selects_search_type(#[trigger] s[i]) {
            assert forall|i: int| 0 <= i < t.len() implies !selects_search_type(
                #[trigger] t[i],
            ) by {
                assert(t[i] == s[i]);
            }
            assert(!selects_search_type(s[s.len() - 1]));
        }
    }
}

/// Whether `c` is a decimal digit.
pub open spec fn is_digit(c: char) -> bool {
    '0' <= c && c <= '9'
}

/// Whether the `--file_type` value `s` can be read: no digit in it names a
/// slot past the seven types.
pub open spec fn file_filter_arg_ok(s: Seq<char>) -> bool {
    forall|i: int| 0 <= i < s.len() ==> !('7' <= #[trigger] s[i] && s[i] <= '9')
}

/// Whether the digit for slot `k` stands in `s`.
pub open spec fn names_slot(s: Seq<char>, k: int) -> bool {
    exists|i: int| 0 <= i < s.len() && is_digit(#[trigger] s[i]) && s[i] as int - '0' as int == k
}

/// The file-type filter that the `--file_type` value `s` asks for: a slot is
/// on exactly when its digit stands in `s`.
pub open spec fn file_filter_of(s: Seq<char>) -> Seq<bool> {
    Seq::new(7, |k: int| names_slot(s, k))
}

/// Whether the `--file_type` value can be read (see `file_filter_arg_ok`).
pub fn file_filter_arg_is_ok(val: &str) -> (r: bool)
    ensures
        r == file_filter_arg_ok(val@),
{
    let chars = chars_of(val);
    let mut i: usize = 0;
    while i < chars.len()
        invariant
            chars@ == val@,
            i <= chars@.len(),
            forall|k: int| 0 <= k < i ==> !('7' <= #[trigger] val@[k] && val@[k] <= '9'),
        decreases chars@.len() - i,
    {
        let c = chars[i];
        if '7' <= c && c <= '9' {
            return false;
        }
        i = i + 1;
    }
    true
}

/// Reads the `--file_type` value: each digit turns on the slot of the type it
/// numbers, and other characters are passed over.
pub fn file_filter_from_arg(val: &str) -> (f: [bool; 7])
    requires
        file_filter_arg_ok(val@),
    ensures
        f@ == file_filter_of(val@),
{
    let chars = chars_of(val);
    let mut f: [bool; 7] = [false, false, false, false, false, false, false];
    let mut i: usize = 0;
    while i < chars.len()
        invariant
            chars@ == val@,
            file_filter_arg_ok(val@),
            i <= chars@.len(),
            forall|k: int| 0 <= k < 7 ==> f@[k] == names_slot(val@.subrange(0, i as int), k),
        decreases chars@.len() - i,
    {
        let c = chars[i];
        let ghost before = f@;
        let ghost prefix = val@.subrange(0, i as int);
        let ghost next = val@.subrange(0, i + 1);
        assert(!('7' <= val@[i as int] && val@[i as int] <= '9'));
        if '0' <= c && c <= '9' {
            let slot = ((c as u32) - ('0' as u32)) as usize;
            f[slot] = true;
        }
        assert forall|k: int| 0 <= k < 7 implies f@[k] == names_slot(next, k) by {
            if names_slot(prefix, k) {
                let w = choose|w: int|
                    0 <= w < prefix.len() && is_digit(#[trigger] prefix[w]) && prefix[w] as int
                        - '0' as int == k;
                assert(next[w] == prefix[w]);
            }
            if names_slot(next, k) {
                let w = choose|w: int|
                    0 <= w < next.len() && is_digit(#[trigger] next[w]) && next[w] as int - '0' as int
                        == k;
                if w < i {
                    assert(prefix[w] == next[w]);
                }
            }
            if '0' <= c && c <= '9' && c as int - '0' as int == k {
                assert(next[i as int] == c);
            }
        }
        i = i + 1;
    }
    assert(val@.subrange(0, chars@.len() as int) =~= val@);
    assert(f@ =~= file_filter_of(val@));
    f
}

/// The number of walker threads for a thread count; none for a negative count.
pub fn walk_thread_count(count: i32) -> (r: Option<usize>)
    ensures
        r is Some <==> count >= 0,
        r matches Some(n) ==> n == count,
{
    if count >= 0 {
        Some(count as usize)
    } else {
        None
    }
}

} // verus!
