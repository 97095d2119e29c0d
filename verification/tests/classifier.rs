use poker_pro_track::classifier::is_poker_table;

#[test]
fn stake_format_names_a_table() {
    assert!(is_poker_table("Mesa 1/2"));
    assert!(is_poker_table("Mesa 25 / 50"));
    assert!(is_poker_table("cash 100bb deep"));
    assert!(is_poker_table("cash 100 BB deep"));
}

#[test]
fn room_brand_names_a_table() {
    assert!(is_poker_table("PokerStars"));
    assert!(is_poker_table("GGPoker - $5/$10 No-Limit Hold'em"));
    assert!(is_poker_table("888poker lobby"));
    assert!(is_poker_table("partypoker"));
    assert!(is_poker_table("WINAMAX"));
    assert!(is_poker_table("iPoker"));
}

#[test]
fn game_type_names_a_table() {
    assert!(is_poker_table("NL Hold'em"));
    assert!(is_poker_table("nlholdem"));
    assert!(is_poker_table("Pot Limit Omaha"));
    assert!(is_poker_table("My Poker Table"));
    assert!(is_poker_table("Table 12"));
}

#[test]
fn other_titles_name_no_table() {
    assert!(!is_poker_table(""));
    assert!(!is_poker_table("Untitled - Notepad"));
    assert!(!is_poker_table("bb"));
    assert!(!is_poker_table("1/"));
    assert!(!is_poker_table("/"));
}

#[test]
fn digits_stand_on_both_sides_of_the_slash() {
    assert!(is_poker_table("1/2"));
    assert!(is_poker_table("$1/$2"));
    assert!(is_poker_table("$0.50 / $1"));
    assert!(is_poker_table("€5/€10"));
    assert!(is_poker_table("1/$2"));
    assert!(!is_poker_table("a/b"));
    assert!(!is_poker_table("$/$"));
    assert!(!is_poker_table("1/$"));
    assert!(!is_poker_table("1/$$2"));
}

#[test]
fn case_of_the_title_does_not_matter() {
    assert!(is_poker_table("POKERSTARS"));
    assert!(is_poker_table("pokerstars"));
    assert!(is_poker_table("POT   LIMIT"));
    assert!(is_poker_table("nl hold'em"));
    assert!(is_poker_table("NL HOLDEM"));
}
