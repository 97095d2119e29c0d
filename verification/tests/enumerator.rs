use poker_pro_track::enumerator::{
    find_poker_tables, get_window_under_cursor, sample_windows, simulated_windows, WindowInfo,
};

fn window(handle: u32, visible: bool, title: &str) -> WindowInfo {
    WindowInfo { handle, visible, title: title.to_string() }
}

#[test]
fn tables_come_sorted_by_title() {
    let windows = vec![
        window(7, true, "Winamax - Table 9"),
        window(3, true, "GGPoker - $5/$10 No-Limit Hold'em"),
        window(1, true, "PokerStars Table - NL Hold'em $1/$2"),
    ];
    let tables = find_poker_tables(&windows);
    assert_eq!(
        tables,
        vec![
            (3, "GGPoker - $5/$10 No-Limit Hold'em".to_string()),
            (1, "PokerStars Table - NL Hold'em $1/$2".to_string()),
            (7, "Winamax - Table 9".to_string()),
        ]
    );
}

#[test]
fn order_of_the_windows_does_not_matter() {
    let forward = vec![
        window(1, true, "PokerStars b"),
        window(2, true, "PokerStars a"),
        window(3, true, "PokerStars c"),
    ];
    let backward = vec![
        window(3, true, "PokerStars c"),
        window(2, true, "PokerStars a"),
        window(1, true, "PokerStars b"),
    ];
    let expected = vec![
        (2, "PokerStars a".to_string()),
        (1, "PokerStars b".to_string()),
        (3, "PokerStars c".to_string()),
    ];
    assert_eq!(find_poker_tables(&forward), expected);
    assert_eq!(find_poker_tables(&backward), expected);
}

#[test]
fn sorting_goes_by_code_point() {
    let windows = vec![
        window(1, true, "pokerstars"),
        window(2, true, "PokerStars"),
        window(3, true, "PokerStars 2"),
    ];
    assert_eq!(
        find_poker_tables(&windows),
        vec![
            (2, "PokerStars".to_string()),
            (3, "PokerStars 2".to_string()),
            (1, "pokerstars".to_string()),
        ]
    );
}

#[test]
fn equal_titles_keep_their_order() {
    let windows = vec![
        window(9, true, "Table 1"),
        window(4, true, "Table 1"),
        window(6, true, "Table 0"),
        window(5, true, "Table 1"),
    ];
    assert_eq!(
        find_poker_tables(&windows),
        vec![
            (6, "Table 0".to_string()),
            (9, "Table 1".to_string()),
            (4, "Table 1".to_string()),
            (5, "Table 1".to_string()),
        ]
    );
}

#[test]
fn hidden_untitled_and_other_windows_are_left_out() {
    let windows = vec![
        window(1, false, "PokerStars"),
        window(2, true, ""),
        window(3, true, "Untitled - Notepad"),
        window(4, true, "GGPoker"),
    ];
    assert_eq!(find_poker_tables(&windows), vec![(4, "GGPoker".to_string())]);
}

#[test]
fn no_windows_no_tables() {
    assert_eq!(find_poker_tables(&Vec::new()), Vec::<(u32, String)>::new());
}

#[test]
fn sample_windows_are_three_tables() {
    let windows = sample_windows();
    assert_eq!(windows.len(), 3);
    assert_eq!(
        find_poker_tables(&windows),
        vec![
            (3, "GGPoker - $5/$10 No-Limit Hold'em".to_string()),
            (1, "PokerStars Table - NL Hold'em $1/$2".to_string()),
            (2, "PokerStars Table - NL Hold'em $2/$5".to_string()),
        ]
    );
}

#[test]
fn window_under_cursor_is_chosen_if_it_is_a_table() {
    let under = Some((5, "PokerStars".to_string()));
    let parent = Some((6, "GGPoker".to_string()));
    assert_eq!(get_window_under_cursor(under, parent), Some((5, "PokerStars".to_string())));
}

#[test]
fn parent_is_looked_at_once() {
    let under = Some((5, "Button".to_string()));
    let parent = Some((6, "GGPoker".to_string()));
    assert_eq!(get_window_under_cursor(under, parent), Some((6, "GGPoker".to_string())));
    let under = Some((5, "Button".to_string()));
    let parent = Some((6, "Panel".to_string()));
    assert_eq!(get_window_under_cursor(under, parent), None);
    assert_eq!(get_window_under_cursor(Some((5, "Button".to_string())), None), None);
    let parent = Some((6, String::new()));
    assert_eq!(get_window_under_cursor(Some((5, "Button".to_string())), parent), None);
}

#[test]
fn untitled_window_falls_through_to_its_parent() {
    let under = Some((5, String::new()));
    let parent = Some((6, "GGPoker".to_string()));
    assert_eq!(get_window_under_cursor(under, parent), Some((6, "GGPoker".to_string())));
    let under = Some((5, String::new()));
    assert_eq!(get_window_under_cursor(under, Some((6, "Panel".to_string()))), None);
    assert_eq!(get_window_under_cursor(Some((5, String::new())), None), None);
}

#[test]
fn no_window_no_choice() {
    assert_eq!(get_window_under_cursor(None, Some((6, "GGPoker".to_string()))), None);
    assert_eq!(get_window_under_cursor(None, None), None);
}

#[test]
fn simulated_windows_are_two_tables() {
    assert_eq!(
        find_poker_tables(&simulated_windows()),
        vec![
            (1, "Simulación - Poker Table #1".to_string()),
            (2, "Simulación - Poker Table #2".to_string()),
        ]
    );
}
