use src_dst_clarifier::listing::{sort_files, text_le, Entry};

fn entry(path: &str, regular: bool) -> Entry {
    Entry { path: path.to_string(), regular }
}

#[test]
fn text_le_orders_by_the_first_character_that_differs() {
    assert!(text_le("a", "b"));
    assert!(!text_le("b", "a"));
    assert!(text_le("a", "a"));
    assert!(text_le("", "a"));
    assert!(!text_le("a", ""));
    assert!(text_le("", ""));
    assert!(text_le("ab", "abc"));
    assert!(!text_le("abc", "ab"));
    assert!(text_le("a.jpg", "a/b"));
    assert!(text_le("B", "a"));
    assert!(text_le("z", "é"));
}

#[test]
fn sort_files_sorts_ascending() {
    let listing = vec![
        entry("/photos/c.jpg", true),
        entry("/photos/a.jpg", true),
        entry("/photos/b.jpg", true),
    ];
    assert_eq!(
        sort_files(&listing),
        vec!["/photos/a.jpg", "/photos/b.jpg", "/photos/c.jpg"]
    );
}

#[test]
fn sort_files_leaves_out_what_is_no_regular_file() {
    let listing = vec![
        entry("/photos/sub", false),
        entry("/photos/b.jpg", true),
        entry("/photos/a.jpg", true),
        entry("/photos/link", false),
    ];
    assert_eq!(sort_files(&listing), vec!["/photos/a.jpg", "/photos/b.jpg"]);
}

#[test]
fn sort_files_keeps_a_path_as_often_as_it_was_listed() {
    let listing = vec![entry("/p/b", true), entry("/p/a", true), entry("/p/b", true)];
    assert_eq!(sort_files(&listing), vec!["/p/a", "/p/b", "/p/b"]);
}

#[test]
fn sort_files_of_nothing_is_nothing() {
    assert_eq!(sort_files(&Vec::new()), Vec::<String>::new());
    assert_eq!(sort_files(&vec![entry("/p/sub", false)]), Vec::<String>::new());
}

#[test]
fn sort_files_puts_a_prefix_first() {
    let listing = vec![entry("/p/ab", true), entry("/p/a", true), entry("/p/B", true)];
    assert_eq!(sort_files(&listing), vec!["/p/B", "/p/a", "/p/ab"]);
}
