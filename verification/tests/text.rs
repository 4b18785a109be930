use file_dialog::text::{clip, decimal_text, page_label, selected_label, CHAR_LIMIT};

#[test]
fn decimal_of_small_numbers() {
    assert_eq!(decimal_text(0), "0");
    assert_eq!(decimal_text(7), "7");
    assert_eq!(decimal_text(9), "9");
    assert_eq!(decimal_text(10), "10");
    assert_eq!(decimal_text(99), "99");
    assert_eq!(decimal_text(100), "100");
    assert_eq!(decimal_text(1234567890), "1234567890");
}

#[test]
fn decimal_agrees_with_formatting() {
    let mut n: usize = 1;
    for _ in 0..60 {
        assert_eq!(decimal_text(n), format!("{}", n));
        assert_eq!(decimal_text(n - 1), format!("{}", n - 1));
        n = n.wrapping_mul(3).wrapping_add(7);
    }
    assert_eq!(decimal_text(usize::MAX), format!("{}", usize::MAX));
}

#[test]
fn page_label_names_page_and_total() {
    assert_eq!(page_label(1, 1), "Page: 1 Total: 1");
    assert_eq!(page_label(2, 13), "Page: 2 Total: 13");
    assert_eq!(page_label(120, 1000), "Page: 120 Total: 1000");
}

#[test]
fn selected_label_names_the_final_component() {
    assert_eq!(selected_label("/home/user/notes.txt"), "Selected: notes.txt");
    assert_eq!(selected_label("/home/user/"), "Selected: user");
    assert_eq!(selected_label("plain"), "Selected: plain");
    assert_eq!(selected_label("/"), "Selected: ");
}

#[test]
fn char_limit_is_twenty_four() {
    assert_eq!(CHAR_LIMIT, 24);
}

#[test]
fn clip_keeps_short_names() {
    assert_eq!(clip("", 24), "");
    assert_eq!(clip("notes.txt", 24), "notes.txt");
    assert_eq!(clip("abcdefghijklmnopqrstuvwx", 24), "abcdefghijklmnopqrstuvwx");
}

#[test]
fn clip_cuts_long_names() {
    assert_eq!(clip("abcdefghijklmnopqrstuvwxyz", 24), "abcdefghijklmnopqrstuvwx");
    assert_eq!(clip("abc", 0), "");
    assert_eq!(clip("abc", 1), "a");
}

#[test]
fn clip_counts_characters_not_bytes() {
    assert_eq!(clip("日本語のファイル名", 3), "日本語");
    assert_eq!(clip("éééé", 4), "éééé");
    assert_eq!(clip("ééééé", 4), "éééé");
}
