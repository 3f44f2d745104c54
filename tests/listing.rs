use macmatic::text::{decimal, digits, pad};
use macmatic::{Window, WindowList};

fn expected(rows: &[(i64, &str, &str)]) -> String {
    let mut t = format!("{:<6} {:<30} {:<30}\n", "Id", "Window Name", "Window Owner Name");
    t.push_str(&format!("{}\n", "-".repeat(66)));
    for (id, name, owner) in rows {
        t.push_str(&format!("{:<6} {:<30} {:<30}\n", id, name, owner));
    }
    t
}

#[test]
fn decimal_text_of_integers() {
    assert_eq!(decimal(0), "0");
    assert_eq!(decimal(7), "7");
    assert_eq!(decimal(1204), "1204");
    assert_eq!(decimal(-58), "-58");
    assert_eq!(decimal(i64::MIN), i64::MIN.to_string());
    assert_eq!(decimal(i64::MAX), i64::MAX.to_string());
    assert_eq!(digits(u64::MAX), u64::MAX.to_string());
}

#[test]
fn pad_fills_to_width() {
    assert_eq!(pad("ab", 5), "ab   ");
    assert_eq!(pad("abcdef", 3), "abcdef");
    assert_eq!(pad("é", 3), "é  ");
}

#[test]
fn empty_listing_is_heading_only() {
    assert_eq!(WindowList::new(vec![]).prettify(), expected(&[]));
}

#[test]
fn listing_has_one_line_per_window() {
    let list = WindowList::new(vec![
        Window::new(42, String::from("Finder"), String::from("Finder"), None),
        Window::new(-3, String::from("Notes"), String::from("Notes.app"), None),
    ]);
    assert_eq!(list.prettify(), expected(&[(42, "Finder", "Finder"), (-3, "Notes", "Notes.app")]));
}

#[test]
fn long_names_are_shortened() {
    let long = "A window title that is far too long to fit";
    let list = WindowList::new(vec![Window::new(1234567, String::from(long), String::from("Owner"), None)]);
    let cut = format!("{}...", &long[..27]);
    assert_eq!(list.prettify(), expected(&[(1234567, &cut, "Owner")]));
    let exact = "x".repeat(30);
    let list = WindowList::new(vec![Window::new(1, exact.clone(), String::from("O"), None)]);
    assert_eq!(list.prettify(), expected(&[(1, &exact, "O")]));
}
