use file_dialog::paths::{
    file_name, is_hidden, join, last_separator_before, parent, precedes, rank, trimmed_end, Rank,
    SEPARATOR,
};

#[test]
fn separator_is_a_slash() {
    assert_eq!(SEPARATOR, '/');
}

#[test]
fn trimmed_end_drops_trailing_separators() {
    assert_eq!(trimmed_end(""), 0);
    assert_eq!(trimmed_end("/"), 1);
    assert_eq!(trimmed_end("//"), 1);
    assert_eq!(trimmed_end("///"), 1);
    assert_eq!(trimmed_end("a"), 1);
    assert_eq!(trimmed_end("a/"), 1);
    assert_eq!(trimmed_end("/a/b"), 4);
    assert_eq!(trimmed_end("/a/b//"), 4);
}

#[test]
fn last_separator_is_found_from_the_back() {
    assert_eq!(last_separator_before("", 0), None);
    assert_eq!(last_separator_before("abc", 3), None);
    assert_eq!(last_separator_before("/", 1), Some(0));
    assert_eq!(last_separator_before("/a/b", 4), Some(2));
    assert_eq!(last_separator_before("/a/b", 2), Some(0));
    assert_eq!(last_separator_before("/a/b", 0), None);
    assert_eq!(last_separator_before("a/b/", 4), Some(3));
}

#[test]
fn file_name_is_the_final_component() {
    assert_eq!(file_name("/a/b.txt"), "b.txt");
    assert_eq!(file_name("/a/b/"), "b");
    assert_eq!(file_name("/a/b///"), "b");
    assert_eq!(file_name("a"), "a");
    assert_eq!(file_name("a/b"), "b");
    assert_eq!(file_name("/a"), "a");
    assert_eq!(file_name(".git"), ".git");
}

#[test]
fn file_name_of_root_and_of_nothing_is_empty() {
    assert_eq!(file_name("/"), "");
    assert_eq!(file_name("//"), "");
    assert_eq!(file_name(""), "");
}

#[test]
fn file_name_counts_characters_not_bytes() {
    assert_eq!(file_name("/tmp/日本語.txt"), "日本語.txt");
    assert_eq!(file_name("/höme/üser/"), "üser");
}

#[test]
fn hidden_means_name_starts_with_a_dot() {
    assert!(is_hidden(".git"));
    assert!(is_hidden("/a/.git"));
    assert!(is_hidden("/a/.git/"));
    assert!(is_hidden("."));
    assert!(is_hidden("/a/.."));
    assert!(!is_hidden("a.txt"));
    assert!(!is_hidden("/.a/b"));
    assert!(!is_hidden("/a/b.c"));
    assert!(!is_hidden("/"));
    assert!(!is_hidden(""));
}

#[test]
fn parent_of_root_is_none() {
    assert_eq!(parent("/"), None);
    assert_eq!(parent("//"), None);
    assert_eq!(parent("///"), None);
}

#[test]
fn parent_of_a_single_component_is_none() {
    assert_eq!(parent(""), None);
    assert_eq!(parent("a"), None);
    assert_eq!(parent("a/"), None);
}

#[test]
fn parent_cuts_the_final_component() {
    assert_eq!(parent("/a"), Some("/".to_string()));
    assert_eq!(parent("/a/b"), Some("/a".to_string()));
    assert_eq!(parent("/a/b/"), Some("/a".to_string()));
    assert_eq!(parent("/a//b"), Some("/a".to_string()));
    assert_eq!(parent("//a"), Some("/".to_string()));
    assert_eq!(parent("a/b"), Some("a".to_string()));
    assert_eq!(parent("/home/user/file.txt"), Some("/home/user".to_string()));
}

#[test]
fn going_up_comes_to_an_end() {
    let mut at = "/a/b/c/d/e".to_string();
    let mut steps = 0;
    while let Some(up) = parent(&at) {
        assert!(up.chars().count() < at.chars().count());
        at = up;
        steps += 1;
        assert!(steps <= 10);
    }
    assert_eq!(at, "/");
    assert_eq!(steps, 5);
}

#[test]
fn join_puts_one_separator_between() {
    assert_eq!(join("/tmp", "out.txt"), "/tmp/out.txt");
    assert_eq!(join("/tmp/", "out.txt"), "/tmp/out.txt");
    assert_eq!(join("/", "a"), "/a");
    assert_eq!(join("a", "b"), "a/b");
    assert_eq!(join("/tmp", "a/b"), "/tmp/a/b");
}

#[test]
fn join_with_an_empty_side() {
    assert_eq!(join("", "x"), "x");
    assert_eq!(join("/tmp", ""), "/tmp/");
    assert_eq!(join("", ""), "");
}

#[test]
fn join_with_an_absolute_name_is_the_name() {
    assert_eq!(join("/tmp", "/etc/passwd"), "/etc/passwd");
    assert_eq!(join("", "/"), "/");
}

#[test]
fn join_then_split_gives_the_parts_back() {
    let joined = join("/home/user", "notes.txt");
    assert_eq!(file_name(&joined), "notes.txt");
    assert_eq!(parent(&joined), Some("/home/user".to_string()));
    let at_root = join("/", "etc");
    assert_eq!(file_name(&at_root), "etc");
    assert_eq!(parent(&at_root), Some("/".to_string()));
}

#[test]
fn precedes_is_the_order_of_a_dictionary() {
    assert!(precedes("a", "b"));
    assert!(!precedes("b", "a"));
    assert!(precedes("a", "a"));
    assert!(precedes("a", "ab"));
    assert!(!precedes("ab", "a"));
    assert!(precedes("", "a"));
    assert!(precedes("", ""));
    assert!(!precedes("a", ""));
    assert!(precedes("Z", "a"));
    assert!(precedes("/a/b", "/a/c"));
    assert!(precedes("/a", "/a/b"));
    assert!(precedes("a.txt", "b"));
}

#[test]
fn precedes_goes_by_code_points() {
    assert!(precedes("z", "é"));
    assert!(!precedes("é", "z"));
    assert!(precedes("é", "日"));
    assert!(precedes("日", "\u{10000}"));
    assert!(!precedes("\u{10000}", "\u{ffff}"));
}

#[test]
fn precedes_agrees_with_the_order_of_strings() {
    let words = [
        "", "/", "//", "/a", "/a/", "/a/b", "/ab", "/b", "a", "A", "a.txt", "b", ".git",
        ".hidden", "é", "z", "zz", "日本", "日本語", "\u{10000}", "\u{ffff}", "0", "10", "9",
    ];
    for a in words.iter() {
        for b in words.iter() {
            assert_eq!(precedes(a, b), a <= b, "{:?} and {:?}", a, b);
        }
    }
}

#[test]
fn rank_tells_before_same_and_after() {
    assert_eq!(rank("a", "b"), Rank::Before);
    assert_eq!(rank("b", "a"), Rank::After);
    assert_eq!(rank("a", "a"), Rank::Same);
    assert_eq!(rank("", ""), Rank::Same);
    assert_eq!(rank("a", "ab"), Rank::Before);
    assert_eq!(rank("ab", "a"), Rank::After);
    assert_eq!(rank("é", "z"), Rank::After);
}
