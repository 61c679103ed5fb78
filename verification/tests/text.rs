use todo_list::{can_be_truncated, row, truncate, Timestamp, Todo};

#[test]
fn a_text_that_fits_is_returned_as_it_is() {
    assert_eq!(truncate("Buy milk", 27), "Buy milk");
    assert_eq!(truncate("", 0), "");
    assert_eq!(truncate("", 27), "");
    assert_eq!(truncate("ab", 2), "ab");
}

#[test]
fn a_text_of_exactly_the_width_is_not_cut() {
    let text = "123456789012345678901234567";
    assert_eq!(text.len(), 27);
    assert_eq!(truncate(text, 27), text);
}

#[test]
fn a_longer_text_is_cut_to_the_width_with_three_dots() {
    assert_eq!(truncate("abcdefghij", 8), "abcde...");
    let text = "1234567890123456789012345678";
    assert_eq!(truncate(text, 27), "123456789012345678901234...");
    assert_eq!(truncate(text, 27).len(), 27);
}

#[test]
fn a_width_of_three_leaves_only_the_dots() {
    assert_eq!(truncate("abcd", 3), "...");
}

#[test]
fn widths_count_bytes() {
    assert_eq!(truncate("ééé", 6), "ééé");
    assert_eq!(truncate("éééé", 7), "éé...");
    assert_eq!(truncate("aéb", 3), "...");
    assert_eq!(truncate("日本語のテキスト", 12), "日本語...");
}

#[test]
fn a_cut_inside_a_character_is_told_apart() {
    assert!(can_be_truncated("abcdefghij", 8));
    assert!(can_be_truncated("short", 27));
    assert!(can_be_truncated("abcd", 3));
    assert!(!can_be_truncated("abcd", 2));
    assert!(!can_be_truncated("a", 0));
    assert!(can_be_truncated("", 0));
    assert!(can_be_truncated("éééé", 7));
    assert!(!can_be_truncated("éééé", 6));
    assert!(can_be_truncated("éééé", 8));
}

#[test]
fn a_row_shows_a_record_cut_to_its_columns() {
    let todo = Todo {
        id: 12,
        title: "A title that is far too long for its column".to_string(),
        description: "short".to_string(),
        completed: true,
        created_at: Timestamp::new(1, 0),
        updated_at: Timestamp::new(2, 0),
    };
    let line = row(&todo);
    assert_eq!(line.id, 12);
    assert_eq!(line.title, "A title that is far too ...");
    assert_eq!(line.title.len(), 27);
    assert_eq!(line.description, "short");
    assert_eq!(line.status, "Completed");
}

#[test]
fn a_row_of_an_open_record_says_pending() {
    let todo = Todo {
        id: 1,
        title: "Buy milk".to_string(),
        description: "d".repeat(48),
        completed: false,
        created_at: Timestamp::new(1, 0),
        updated_at: Timestamp::new(1, 0),
    };
    let line = row(&todo);
    assert_eq!(line.title, "Buy milk");
    assert_eq!(line.description, format!("{}...", "d".repeat(44)));
    assert_eq!(line.status, "Pending");
}
