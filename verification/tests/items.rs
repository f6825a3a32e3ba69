use todo_cli::decimal::to_decimal;
use todo_cli::item::{copy_or_empty, copy_text, Status, Summary, TodoItem};

fn item(title: &str, content: &str, status: Status, due: Option<&str>) -> TodoItem {
    TodoItem {
        id: "7".to_string(),
        title: title.to_string(),
        content: content.to_string(),
        status,
        due: due.map(|d| d.to_string()),
    }
}

#[test]
fn open_item_has_an_empty_box() {
    let line = item("Groceries", "buy milk and eggs", Status::Todo, None).summarize();
    assert_eq!(line, "[ ] Groceries: buy milk and eggs (Due: No due date)");
}

#[test]
fn done_item_has_a_checked_box() {
    let line = item("Groceries", "buy milk and eggs", Status::Done, None).summarize();
    assert_eq!(line, "[X] Groceries: buy milk and eggs (Due: No due date)");
}

#[test]
fn item_in_progress_is_not_checked() {
    let line = item("Report", "draft", Status::InProgress, None).summarize();
    assert_eq!(line, "[ ] Report: draft (Due: No due date)");
}

#[test]
fn due_date_is_shown_as_given() {
    let line = item("Taxes", "file", Status::Todo, Some("2024-06-01T00:00:00Z")).summarize();
    assert_eq!(line, "[ ] Taxes: file (Due: 2024-06-01T00:00:00Z)");
}

#[test]
fn empty_fields_leave_the_frame() {
    let line = item("", "", Status::Todo, Some("")).summarize();
    assert_eq!(line, "[ ] :  (Due: )");
}

#[test]
fn decimal_of_small_and_large_numbers() {
    assert_eq!(to_decimal(0), "0");
    assert_eq!(to_decimal(7), "7");
    assert_eq!(to_decimal(10), "10");
    assert_eq!(to_decimal(1234567890), "1234567890");
    assert_eq!(to_decimal(u64::MAX), "18446744073709551615");
}

#[test]
fn decimal_agrees_with_the_standard_rendering() {
    let mut n: u64 = 1;
    for _ in 0..60 {
        assert_eq!(to_decimal(n), n.to_string());
        assert_eq!(to_decimal(n - 1), (n - 1).to_string());
        n = n.wrapping_mul(3).wrapping_add(1);
        if n == 0 {
            n = 1;
        }
    }
}

#[test]
fn copies_keep_every_character() {
    let some = Some("né 😀 x".to_string());
    assert_eq!(copy_text(&some), some);
    assert_eq!(copy_text(&None), None);
    assert_eq!(copy_or_empty(&some), "né 😀 x");
    assert_eq!(copy_or_empty(&None), "");
}
