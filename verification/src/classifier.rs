//! Decides from a window's title whether the window shows a poker table.
//!
//! A title is lower-cased and then searched for three kinds of marks: a stake
//! format, a game type, the brand of a poker room. Each mark is a regular
//! expression; a title that holds any of them names a table.

use vstd::prelude::*;
use crate::text::{lowercase_of, to_lowercase};

verus! {

/// What the `regex` crate answers when `pattern` is compiled and then searched
/// for anywhere in `haystack`; `None` where it refuses to compile the pattern.
pub uninterp spec fn pattern_search(pattern: Seq<char>, haystack: Seq<char>) -> Option<bool>;

/// Compiles `pattern` with `regex::Regex::new` and, where that succeeds, asks
/// `regex::Regex::is_match` for a match anywhere in `haystack`. Both depend on
/// their arguments alone, so the answer goes by the name `pattern_search`.
#[verifier::external_body]
fn search(pattern: &str, haystack: &str) -> (found: Option<bool>)
    ensures
        found == pattern_search(pattern@, haystack@),
{
    match regex::Regex::new(pattern) {
        Ok(compiled) => Some(compiled.is_match(haystack)),
        Err(_) => None,
    }
}

/// The marks, in the order in which they are tried: two stake formats
/// (`1/2` with or without a currency sign before each number, as in `$1/$2`,
/// and `100 bb`), four game types, six room brands. Their letters are lower
/// case because they are searched for in a lower-cased title.
pub open spec fn table_patterns() -> Seq<Seq<char>> {
    seq![
        "\\p{Sc}?\\d+ *\\/ *\\p{Sc}?\\d+"@,
        "\\d+ *bb"@,
        "nl\\s*hold'?em"@,
        "pot\\s*limit"@,
        "poker\\s*table"@,
        "table\\s*\\d+"@,
        "pokerstars"@,
        "ggpoker"@,
        "888poker"@,
        "partypoker"@,
        "winamax"@,
        "ipoker"@,
    ]
}

/// The mark at `index` is found in `lowered`. A mark that does not compile is
/// found nowhere.
pub open spec fn mark_found(index: int, lowered: Seq<char>) -> bool {
    pattern_search(table_patterns()[index], lowered) == Some(true)
}

/// The title holds a stake format.
pub open spec fn has_stake_format(title: Seq<char>) -> bool {
    exists|index: int| 0 <= index < 2 && mark_found(index, lowercase_of(title))
}

/// The title holds a game type.
pub open spec fn has_game_type(title: Seq<char>) -> bool {
    exists|index: int| 2 <= index < 6 && mark_found(index, lowercase_of(title))
}

/// The title holds the brand of a room.
pub open spec fn has_room_brand(title: Seq<char>) -> bool {
    exists|index: int| 6 <= index < 12 && mark_found(index, lowercase_of(title))
}

/// The title names a poker table: it is not empty and holds a stake format,
/// a game type or a room brand.
pub open spec fn names_poker_table(title: Seq<char>) -> bool {
    title.len() > 0 && (has_stake_format(title) || has_game_type(title) || has_room_brand(title))
}

/// An empty title names no table, whatever the marks are.
pub proof fn lemma_empty_title_names_no_table()
    ensures
        !names_poker_table(Seq::<char>::empty()),
{
}

/// A title names a table exactly when it is not empty and one of the twelve
/// marks is found in its lower-case form.
pub proof fn lemma_table_iff_some_mark(title: Seq<char>)
    ensures
        names_poker_table(title) <==> title.len() > 0 && exists|index: int|
            0 <= index < 12 && mark_found(index, lowercase_of(title)),
{
    if names_poker_table(title) {
        if has_stake_format(title) {
            let index = choose|index: int| 0 <= index < 2 && mark_found(index, lowercase_of(title));
            assert(0 <= index < 12 && mark_found(index, lowercase_of(title)));
        } else if has_game_type(title) {
            let index = choose|index: int| 2 <= index < 6 && mark_found(index, lowercase_of(title));
            assert(0 <= index < 12 && mark_found(index, lowercase_of(title)));
        } else {
            let index = choose|index: int|
                6 <= index < 12 && mark_found(index, lowercase_of(title));
            assert(0 <= index < 12 && mark_found(index, lowercase_of(title)));
        }
    }
    if title.len() > 0 && exists|index: int|
        0 <= index < 12 && mark_found(index, lowercase_of(title)) {
        let index = choose|index: int| 0 <= index < 12 && mark_found(index, lowercase_of(title));
        if index < 2 {
            assert(has_stake_format(title));
        } else if index < 6 {
            assert(has_game_type(title));
        } else {
            assert(has_room_brand(title));
        }
    }
}

fn patterns() -> (list: Vec<&'static str>)
    ensures
        list@.len() == table_patterns().len(),
        forall|index: int| 0 <= index < list@.len() ==> list@[index]@ == table_patterns()[index],
{
    let mut list: Vec<&'static str> = Vec::new();
    list.push("\\p{Sc}?\\d+ *\\/ *\\p{Sc}?\\d+");
    list.push("\\d+ *bb");
    list.push("nl\\s*hold'?em");
    list.push("pot\\s*limit");
    list.push("poker\\s*table");
    list.push("table\\s*\\d+");
    list.push("pokerstars");
    list.push("ggpoker");
    list.push("888poker");
    list.push("partypoker");
    list.push("winamax");
    list.push("ipoker");
    list
}

/// Whether `title` names a poker table: true exactly when the lower-cased
/// title holds a stake format, a game type or a room brand. Total: an empty
/// title is answered with `false`, and so is one in which no mark is found,
/// however it is formed; there is no failure.
pub fn is_poker_table(title: &str) -> (table: bool)
    ensures
        table == names_poker_table(title@),
{
    if title.is_empty() {
        return false;
    }
    let lowered = to_lowercase(title);
    let list = patterns();
    let mut index: usize = 0;
    while index < list.len()
        invariant
            index <= list@.len(),
            list@.len() == 12,
            table_patterns().len() == 12,
            title@.len() > 0,
            lowered@ == lowercase_of(title@),
            forall|k: int| 0 <= k < list@.len() ==> list@[k]@ == table_patterns()[k],
            forall|k: int| 0 <= k < index ==> !mark_found(k, lowered@),
        decreases list@.len() - index,
    {
        let found = search(list[index], lowered.as_str());
        if found == Some(true) {
            assert(mark_found(index as int, lowercase_of(title@)));
            return true;
        }
        index += 1;
    }
    false
}

} // verus!
