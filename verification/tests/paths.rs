use src_dst_clarifier::path::{
    auto_dir_name, auto_file_name, extension, file_name, join, parent, same_text, with_file_name,
};

#[test]
fn file_name_is_what_follows_the_last_slash() {
    assert_eq!(file_name("/photos/a.jpg"), "a.jpg");
    assert_eq!(file_name("a.jpg"), "a.jpg");
    assert_eq!(file_name("/a"), "a");
    assert_eq!(file_name("/"), "");
    assert_eq!(file_name("photos/"), "");
    assert_eq!(file_name(""), "");
    assert_eq!(file_name("/données/été.png"), "été.png");
}

#[test]
fn parent_is_the_directory_that_holds_the_path() {
    assert_eq!(parent("/photos/a.jpg"), Some("/photos".to_string()));
    assert_eq!(parent("/a"), Some("/".to_string()));
    assert_eq!(parent("a"), Some(String::new()));
    assert_eq!(parent("x/y/z"), Some("x/y".to_string()));
    assert_eq!(parent("/"), None);
    assert_eq!(parent(""), None);
    assert_eq!(parent("photos/"), None);
}

#[test]
fn join_puts_one_slash_between() {
    assert_eq!(join("/photos", "a.jpg"), "/photos/a.jpg");
    assert_eq!(join("/photos/", "a.jpg"), "/photos/a.jpg");
    assert_eq!(join("/", "a.jpg"), "/a.jpg");
    assert_eq!(join("", "a.jpg"), "a.jpg");
    assert_eq!(join("/photos", ""), "/photos/");
}

#[test]
fn join_then_parent_and_file_name_give_the_parts_back() {
    let joined = join("/photos", "a.jpg");
    assert_eq!(parent(&joined), Some("/photos".to_string()));
    assert_eq!(file_name(&joined), "a.jpg");
}

#[test]
fn with_file_name_keeps_the_directory() {
    assert_eq!(with_file_name("/photos/a.jpg", "b.png"), "/photos/b.png");
    assert_eq!(with_file_name("a.jpg", "b.png"), "b.png");
    assert_eq!(with_file_name("/a.jpg", "b.png"), "/b.png");
    assert_eq!(with_file_name("/photos/", "b.png"), "/photos/b.png");
}

#[test]
fn extension_is_what_follows_the_last_dot() {
    assert_eq!(extension("photo.png"), Some("png".to_string()));
    assert_eq!(extension("archive.tar.gz"), Some("gz".to_string()));
    assert_eq!(extension("photo."), Some(String::new()));
    assert_eq!(extension("photo"), None);
    assert_eq!(extension(".hidden"), None);
    assert_eq!(extension(".hidden.txt"), Some("txt".to_string()));
    assert_eq!(extension(".."), None);
    assert_eq!(extension(""), None);
}

#[test]
fn same_text_compares_character_by_character() {
    assert!(same_text("png", "png"));
    assert!(same_text("", ""));
    assert!(!same_text("png", "pnG"));
    assert!(!same_text("png", "pn"));
    assert!(!same_text("", "-"));
}

#[test]
fn auto_file_name_strips_a_matching_extension() {
    assert_eq!(
        auto_file_name("photo.png", "png", "A01123-0456-0789"),
        "photo-A01123-0456-0789.png"
    );
}

#[test]
fn auto_file_name_keeps_another_extension() {
    assert_eq!(
        auto_file_name("photo.jpg", "png", "A01123-0456-0789"),
        "photo.jpg-A01123-0456-0789.png"
    );
}

#[test]
fn auto_file_name_without_default_extension_adds_none() {
    assert_eq!(auto_file_name("photo.jpg", "", "T"), "photo.jpg-T");
    assert_eq!(auto_file_name("photo", "", "T"), "photo-T");
    assert_eq!(auto_file_name("photo.", "", "T"), "photo-T");
    assert_eq!(auto_file_name("stdin", "png", "T"), "stdin-T.png");
}

#[test]
fn auto_file_name_is_never_the_name_it_is_made_from() {
    for base in ["photo.png", "photo.jpg", "photo", "photo.", ".png", ""] {
        for ext in ["png", ""] {
            for stamp in ["", "T", "A01123-0456-0789"] {
                assert_ne!(auto_file_name(base, ext, stamp), base);
            }
        }
    }
}

#[test]
fn auto_dir_name_appends_the_stamp() {
    assert_eq!(auto_dir_name("photos", "A01123-0456-0789"), "photos-A01123-0456-0789");
    assert_eq!(auto_dir_name("photos.d", "T"), "photos.d-T");
}
