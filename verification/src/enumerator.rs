//! Picks the poker tables out of the windows that a platform reports.
//!
//! The platform layer lists the top-level windows; this module keeps those
//! that are visible and classified as tables, and orders them by
//! title so that callers see the same list whatever order the platform used.

use vstd::prelude::*;
use crate::classifier::{is_poker_table, names_poker_table};
use crate::text::{
    le, lemma_text_le_antisymmetric, lemma_text_le_reflexive, lemma_text_le_total,
    lemma_text_le_transitive, text_le,
};

verus! {

/// A top-level window as the platform reports it.
pub struct WindowInfo {
    pub handle: u32,
    pub visible: bool,
    pub title: String,
}

/// A window's handle and title, as plain values.
pub type Record = (u32, Seq<char>);

/// The window is listed: it is visible and its title names a table.
pub open spec fn is_listed(window: WindowInfo) -> bool {
    window.visible && names_poker_table(window.title@)
}

/// The listed windows among `windows`, in the order in which they stand there.
pub open spec fn listed(windows: Seq<WindowInfo>) -> Seq<Record>
    decreases windows.len(),
{
    if windows.len() == 0 {
        Seq::empty()
    } else if is_listed(windows.last()) {
        listed(windows.drop_last()).push((windows.last().handle, windows.last().title@))
    } else {
        listed(windows.drop_last())
    }
}

/// `sorted` with `record` put behind the last record whose title is not above its own.
pub open spec fn insert_by_title(sorted: Seq<Record>, record: Record) -> Seq<Record>
    decreases sorted.len(),
{
    if sorted.len() == 0 {
        seq![record]
    } else if text_le(sorted[0].1, record.1) {
        seq![sorted[0]] + insert_by_title(sorted.drop_first(), record)
    } else {
        seq![record] + sorted
    }
}

/// `records` in ascending order of title; records with one title keep their order.
pub open spec fn sort_by_title(records: Seq<Record>) -> Seq<Record>
    decreases records.len(),
{
    if records.len() == 0 {
        Seq::empty()
    } else {
        insert_by_title(sort_by_title(records.drop_last()), records.last())
    }
}

/// No record stands before one with a lower title.
pub open spec fn titles_ascend(records: Seq<Record>) -> bool {
    forall|i: int, j: int| 0 <= i < j < records.len() ==> text_le(records[i].1, records[j].1)
}

/// The handles and titles of a list of windows, as plain values.
pub open spec fn records_of(tables: Seq<(u32, String)>) -> Seq<Record> {
    Seq::new(tables.len(), |i: int| (tables[i].0, tables[i].1@))
}

/// Where `record` goes in `sorted`: behind `at` records that are not above it
/// and before one that is.
proof fn lemma_insert_position(sorted: Seq<Record>, record: Record, at: int)
    requires
        0 <= at <= sorted.len(),
        forall|k: int| 0 <= k < at ==> text_le(sorted[k].1, record.1),
        at < sorted.len() ==> !text_le(sorted[at].1, record.1),
    ensures
        insert_by_title(sorted, record) == sorted.insert(at, record),
    decreases sorted.len(),
{
    if sorted.len() == 0 {
        assert(sorted.insert(at, record) =~= seq![record]);
    } else if at == 0 {
        assert(sorted.insert(0, record) =~= seq![record] + sorted);
    } else {
        let rest = sorted.drop_first();
        assert forall|k: int| 0 <= k < at - 1 implies text_le(rest[k].1, record.1) by {
            assert(rest[k] == sorted[k + 1]);
        }
        lemma_insert_position(rest, record, at - 1);
        assert(sorted.insert(at, record) =~= seq![sorted[0]] + rest.insert(at - 1, record));
    }
}

/// Inserting by title keeps an ascending list ascending and adds one record.
pub proof fn lemma_insert_keeps_order(sorted: Seq<Record>, record: Record)
    requires
        titles_ascend(sorted),
    ensures
        titles_ascend(insert_by_title(sorted, record)),
        insert_by_title(sorted, record).len() == sorted.len() + 1,
        insert_by_title(sorted, record).to_multiset() == sorted.to_multiset().insert(record),
    decreases sorted.len(),
{
    broadcast use vstd::seq_lib::group_to_multiset_ensures;

    let out = insert_by_title(sorted, record);
    if sorted.len() == 0 {
        assert(sorted =~= Seq::empty());
        assert(out =~= Seq::<Record>::empty().push(record));
    } else if text_le(sorted[0].1, record.1) {
        let rest = sorted.drop_first();
        assert forall|i: int, j: int| 0 <= i < j < rest.len() implies text_le(
            rest[i].1,
            rest[j].1,
        ) by {
            assert(rest[i] == sorted[i + 1] && rest[j] == sorted[j + 1]);
        }
        lemma_insert_keeps_order(rest, record);
        let tail = insert_by_title(rest, record);
        assert(out =~= seq![sorted[0]] + tail);
        assert forall|i: int, j: int| 0 <= i < j < out.len() implies text_le(
            out[i].1,
            out[j].1,
        ) by {
            if i == 0 {
                let later = tail[j - 1];
                assert(tail.to_multiset().count(later) > 0);
                if later == record {
                } else {
                    assert(rest.to_multiset().count(later) > 0);
                    assert(rest.contains(later));
                    let k = choose|k: int| 0 <= k < rest.len() && rest[k] == later;
                    assert(sorted[k + 1] == later);
                }
            } else {
                assert(out[i] == tail[i - 1] && out[j] == tail[j - 1]);
            }
        }
        assert(sorted =~= seq![sorted[0]] + rest);
        assert(out.to_multiset() =~= sorted.to_multiset().insert(record)) by {
            vstd::seq_lib::lemma_multiset_commutative(seq![sorted[0]], tail);
            vstd::seq_lib::lemma_multiset_commutative(seq![sorted[0]], rest);
        }
    } else {
        assert(out =~= seq![record] + sorted);
        assert forall|i: int, j: int| 0 <= i < j < out.len() implies text_le(
            out[i].1,
            out[j].1,
        ) by {
            if i == 0 {
                lemma_text_le_total(sorted[0].1, record.1);
                if j > 1 {
                    lemma_text_le_transitive(record.1, sorted[0].1, sorted[j - 1].1);
                }
            } else {
                assert(out[i] == sorted[i - 1] && out[j] == sorted[j - 1]);
            }
        }
        assert(out.to_multiset() =~= sorted.to_multiset().insert(record)) by {
            vstd::seq_lib::lemma_multiset_commutative(seq![record], sorted);
            assert(seq![record] =~= Seq::<Record>::empty().push(record));
        }
    }
}

/// Sorting by title gives an ascending list that holds the records it was
/// given, each as often as it was given.
pub proof fn lemma_sort_by_title(records: Seq<Record>)
    ensures
        titles_ascend(sort_by_title(records)),
        sort_by_title(records).len() == records.len(),
        sort_by_title(records).to_multiset() == records.to_multiset(),
    decreases records.len(),
{
    broadcast use vstd::seq_lib::group_to_multiset_ensures;

    if records.len() == 0 {
        assert(sort_by_title(records) =~= records);
    } else {
        lemma_sort_by_title(records.drop_last());
        lemma_insert_keeps_order(sort_by_title(records.drop_last()), records.last());
        assert(records =~= records.drop_last().push(records.last()));
    }
}

/// No two records have one title.
pub open spec fn titles_differ(records: Seq<Record>) -> bool {
    forall|i: int, j: int|
        0 <= i < records.len() && 0 <= j < records.len() && i != j ==> records[i].1
            != records[j].1
}

/// There is one ascending order of records whose titles all differ: two
/// ascending lists that hold the same records are the same list.
pub proof fn lemma_ascending_order_is_unique(x: Seq<Record>, y: Seq<Record>)
    requires
        titles_ascend(x),
        titles_ascend(y),
        titles_differ(x),
        x.to_multiset() == y.to_multiset(),
    ensures
        x == y,
    decreases x.len(),
{
    broadcast use vstd::seq_lib::group_to_multiset_ensures;

    assert(x.len() == y.len()) by {
        x.to_multiset_ensures();
        y.to_multiset_ensures();
    }
    if x.len() == 0 {
        assert(x =~= y);
    } else {
        assert(y.to_multiset().count(x[0]) > 0);
        assert(y.contains(x[0]));
        let k = choose|k: int| 0 <= k < y.len() && y[k] == x[0];
        assert(x.to_multiset().count(y[0]) > 0);
        assert(x.contains(y[0]));
        let m = choose|m: int| 0 <= m < x.len() && x[m] == y[0];
        lemma_text_le_reflexive(x[0].1);
        lemma_text_le_reflexive(y[0].1);
        assert(text_le(x[0].1, x[m].1));
        assert(text_le(y[0].1, y[k].1));
        lemma_text_le_antisymmetric(x[0].1, y[0].1);
        assert(m == 0);
        assert(x[0] == y[0]);
        let xs = x.drop_first();
        let ys = y.drop_first();
        assert(x =~= seq![x[0]] + xs);
        assert(y =~= seq![y[0]] + ys);
        assert(xs.to_multiset() =~= ys.to_multiset()) by {
            vstd::seq_lib::lemma_multiset_commutative(seq![x[0]], xs);
            vstd::seq_lib::lemma_multiset_commutative(seq![y[0]], ys);
            assert(seq![x[0]] =~= Seq::<Record>::empty().push(x[0]));
            assert forall|r: Record| xs.to_multiset().count(r) == ys.to_multiset().count(r) by {
                assert(x.to_multiset().count(r) == seq![x[0]].to_multiset().count(r)
                    + xs.to_multiset().count(r));
                assert(y.to_multiset().count(r) == seq![y[0]].to_multiset().count(r)
                    + ys.to_multiset().count(r));
            }
        }
        assert forall|i: int, j: int| 0 <= i < j < xs.len() implies text_le(xs[i].1, xs[j].1) by {
            assert(xs[i] == x[i + 1] && xs[j] == x[j + 1]);
        }
        assert forall|i: int, j: int| 0 <= i < j < ys.len() implies text_le(ys[i].1, ys[j].1) by {
            assert(ys[i] == y[i + 1] && ys[j] == y[j + 1]);
        }
        assert forall|i: int, j: int|
            0 <= i < xs.len() && 0 <= j < xs.len() && i != j implies xs[i].1 != xs[j].1 by {
            assert(xs[i] == x[i + 1] && xs[j] == x[j + 1]);
        }
        lemma_ascending_order_is_unique(xs, ys);
    }
}

/// The order in which the platform reports the windows does not matter:
/// two reports that list the same records, no two with one title, yield the
/// same tables in the same order.
pub proof fn lemma_report_order_does_not_matter(a: Seq<WindowInfo>, b: Seq<WindowInfo>)
    requires
        listed(a).to_multiset() == listed(b).to_multiset(),
        titles_differ(sort_by_title(listed(a))),
    ensures
        sort_by_title(listed(a)) == sort_by_title(listed(b)),
{
    lemma_sort_by_title(listed(a));
    lemma_sort_by_title(listed(b));
    lemma_ascending_order_is_unique(sort_by_title(listed(a)), sort_by_title(listed(b)));
}

/// The windows that stand in for the platform's while the program is being
/// developed: three tables, all visible.
pub fn sample_windows() -> (windows: Vec<WindowInfo>)
    ensures
        windows@.len() == 3,
        windows@[0].handle == 1 && windows@[0].visible && windows@[0].title@
            == "PokerStars Table - NL Hold'em $1/$2"@,
        windows@[1].handle == 2 && windows@[1].visible && windows@[1].title@
            == "PokerStars Table - NL Hold'em $2/$5"@,
        windows@[2].handle == 3 && windows@[2].visible && windows@[2].title@
            == "GGPoker - $5/$10 No-Limit Hold'em"@,
{
    let mut windows: Vec<WindowInfo> = Vec::new();
    windows.push(
        WindowInfo {
            handle: 1,
            visible: true,
            title: "PokerStars Table - NL Hold'em $1/$2".to_owned(),
        },
    );
    windows.push(
        WindowInfo {
            handle: 2,
            visible: true,
            title: "PokerStars Table - NL Hold'em $2/$5".to_owned(),
        },
    );
    windows.push(
        WindowInfo { handle: 3, visible: true, title: "GGPoker - $5/$10 No-Limit Hold'em".to_owned() },
    );
    windows
}

/// The windows that stand in for the platform's on a platform that cannot
/// list windows: two tables, both visible.
pub fn simulated_windows() -> (windows: Vec<WindowInfo>)
    ensures
        windows@.len() == 2,
        windows@[0].handle == 1 && windows@[0].visible && windows@[0].title@
            == "Simulación - Poker Table #1"@,
        windows@[1].handle == 2 && windows@[1].visible && windows@[1].title@
            == "Simulación - Poker Table #2"@,
{
    let mut windows: Vec<WindowInfo> = Vec::new();
    windows.push(
        WindowInfo { handle: 1, visible: true, title: "Simulación - Poker Table #1".to_owned() },
    );
    windows.push(
        WindowInfo { handle: 2, visible: true, title: "Simulación - Poker Table #2".to_owned() },
    );
    windows
}

/// The poker tables among `windows`, ordered by title.
///
/// A window is listed when it is visible and its title names a table; a
/// window without a title names none. The result is in ascending order of title for every order of
/// `windows`; tables with one title stay in the order in which they came.
pub fn find_poker_tables(windows: &Vec<WindowInfo>) -> (tables: Vec<(u32, String)>)
    ensures
        records_of(tables@) == sort_by_title(listed(windows@)),
        titles_ascend(records_of(tables@)),
        records_of(tables@).to_multiset() == listed(windows@).to_multiset(),
{
    let mut tables: Vec<(u32, String)> = Vec::new();
    let mut index: usize = 0;
    assert(windows@.take(0) =~= Seq::empty());
    assert(records_of(tables@) =~= Seq::empty());
    while index < windows.len()
        invariant
            index <= windows@.len(),
            records_of(tables@) == sort_by_title(listed(windows@.take(index as int))),
        decreases windows@.len() - index,
    {
        let window = &windows[index];
        let ghost before = windows@.take(index as int);
        let ghost upto = windows@.take(index as int + 1);
        assert(upto.drop_last() =~= before);
        assert(upto.last() == windows@[index as int]);
        if window.visible && is_poker_table(window.title.as_str()) {
            let ghost record: Record = (window.handle, window.title@);
            let ghost sorted = records_of(tables@);
            let mut at: usize = 0;
            while at < tables.len() && le(tables[at].1.as_str(), window.title.as_str())
                invariant
                    at <= tables@.len(),
                    sorted == records_of(tables@),
                    record.1 == window.title@,
                    forall|k: int| 0 <= k < at ==> text_le(sorted[k].1, record.1),
                decreases tables@.len() - at,
            {
                at += 1;
            }
            proof {
                lemma_insert_position(sorted, record, at as int);
            }
            tables.insert(at, (window.handle, window.title.clone()));
            assert(records_of(tables@) =~= sorted.insert(at as int, record));
            assert(is_listed(upto.last()));
            assert(listed(upto) == listed(before).push(record));
            assert(listed(upto).drop_last() =~= listed(before));
        } else {
            assert(!is_listed(upto.last()));
            assert(listed(upto) == listed(before));
        }
        index += 1;
    }
    assert(windows@.take(index as int) =~= windows@);
    proof {
        lemma_sort_by_title(listed(windows@));
    }
    tables
}

/// The window that a click or a query at the pointer means.
///
/// `under` is the window beneath the pointer and `parent` its immediate
/// parent, each with its title, where the platform reports one. The window
/// beneath the pointer is chosen if its title names a table. If it does not,
/// be it for want of a title, its parent is looked at once, one level up and
/// no further.
pub fn get_window_under_cursor(
    under: Option<(u32, String)>,
    parent: Option<(u32, String)>,
) -> (chosen: Option<(u32, String)>)
    ensures
        chosen == window_at_pointer(under, parent),
{
    match under {
        None => None,
        Some(window) => {
            if is_poker_table(window.1.as_str()) {
                Some(window)
            } else {
                match parent {
                    None => None,
                    Some(frame) => {
                        if is_poker_table(frame.1.as_str()) {
                            Some(frame)
                        } else {
                            None
                        }
                    },
                }
            }
        },
    }
}

/// What `get_window_under_cursor` chooses.
pub open spec fn window_at_pointer(
    under: Option<(u32, String)>,
    parent: Option<(u32, String)>,
) -> Option<(u32, String)> {
    match under {
        None => None,
        Some(window) => if names_poker_table(window.1@) {
            Some(window)
        } else {
            match parent {
                Some(frame) if names_poker_table(frame.1@) => Some(frame),
                _ => None,
            }
        },
    }
}

} // verus!
