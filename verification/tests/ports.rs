use tetris_tui::highscore::{high_score_qualifies, NameEntry, MAX_NAME_LENGTH};
use tetris_tui::layout::{find_longest_key_value_length, find_longest_message_length};
use tetris_tui::{Args, MAX_LEVEL};

#[test]
fn a_short_board_accepts_any_score() {
    assert!(high_score_qualifies(0, 0, None));
    assert!(high_score_qualifies(1, 0, None));
    assert!(high_score_qualifies(50, 4, None));
}

#[test]
fn a_full_board_refuses_scores_that_do_not_beat_it() {
    assert!(!high_score_qualifies(0, 10, Some(1)));
    assert!(!high_score_qualifies(0, 5, Some(0)));
}

#[test]
fn a_full_board_needs_a_better_score() {
    assert!(!high_score_qualifies(50, 5, Some(100)));
    assert!(!high_score_qualifies(100, 5, Some(100)));
    assert!(high_score_qualifies(150, 5, Some(100)));
}

#[test]
fn name_entry_edits_around_the_cursor() {
    let mut entry = NameEntry::new();
    entry.insert_char('a');
    entry.insert_char('b');
    entry.insert_char('c');
    assert_eq!(entry.name, vec!['a', 'b', 'c']);
    assert_eq!(entry.cursor, 3);
    entry.move_cursor_left();
    entry.move_cursor_left();
    entry.insert_char('x');
    assert_eq!(entry.name, vec!['a', 'x', 'b', 'c']);
    assert_eq!(entry.cursor, 2);
    entry.backspace();
    assert_eq!(entry.name, vec!['a', 'b', 'c']);
    assert_eq!(entry.cursor, 1);
    entry.move_cursor_right();
    entry.move_cursor_right();
    entry.move_cursor_right();
    assert_eq!(entry.cursor, 3);
}

#[test]
fn name_entry_stops_at_the_edges() {
    let mut entry = NameEntry::new();
    entry.backspace();
    assert_eq!(entry.cursor, 0);
    assert!(entry.name.is_empty());
    entry.move_cursor_left();
    assert_eq!(entry.cursor, 0);
    for c in "abcdefghijklmnop".chars() {
        entry.insert_char(c);
    }
    assert_eq!(entry.name.len(), MAX_NAME_LENGTH);
    assert_eq!(entry.name.len(), 12);
}

#[test]
fn longest_message_length_takes_the_maximum() {
    assert_eq!(find_longest_message_length(&[]), 0);
    assert_eq!(find_longest_message_length(&["", "abc", "ab"]), 3);
    assert_eq!(
        find_longest_message_length(&["Left: h", "Rotate: Space", "Pause: p"]),
        13
    );
}

#[test]
fn key_value_lengths_split_at_the_first_colon() {
    let messages = vec!["", "Score: 12", "Lines: 345", ""];
    let (key, value) = find_longest_key_value_length(&messages);
    // The longest key is five bytes ("Score" or "Lines"); the longest
    // value is the four characters of " 345".
    assert_eq!(key, 5);
    assert_eq!(value, 4);
}

#[test]
fn argument_bounds_match_the_command_line() {
    let ok = Args {
        multiplayer: false,
        server_address: None,
        number_of_lines_already_filled: 10,
        level: MAX_LEVEL,
    };
    assert!(ok.valid());
    let too_many_lines = Args {
        multiplayer: false,
        server_address: None,
        number_of_lines_already_filled: 11,
        level: 0,
    };
    assert!(!too_many_lines.valid());
    let too_high = Args {
        multiplayer: true,
        server_address: Some(String::from("peer:8080")),
        number_of_lines_already_filled: 0,
        level: MAX_LEVEL + 1,
    };
    assert!(!too_high.valid());
}
