use devenv::path::{add_to_user_path, added_text, listed_text};

#[test]
fn appends_after_existing_entries() {
    assert_eq!(add_to_user_path("A;B", "C"), Some("A;B;C".to_string()));
}

#[test]
fn appends_to_empty_value() {
    assert_eq!(add_to_user_path("", "C"), Some("C".to_string()));
}

#[test]
fn appends_without_doubling_the_separator() {
    assert_eq!(add_to_user_path("A;", "C"), Some("A;C".to_string()));
}

#[test]
fn listed_directory_is_not_added_again() {
    let first = add_to_user_path("C:\\Windows", "C:\\Tools\\bin").unwrap();
    assert_eq!(first, "C:\\Windows;C:\\Tools\\bin");
    assert_eq!(add_to_user_path(&first, "C:\\Tools\\bin"), None);
}

#[test]
fn listing_ignores_letter_case() {
    assert_eq!(add_to_user_path("C:\\Windows;C:\\Tools\\bin", "c:\\tools\\bin"), None);
    assert_eq!(add_to_user_path("c:\\tools\\bin;C:\\Windows", "C:\\TOOLS\\BIN"), None);
}

#[test]
fn a_longer_entry_does_not_count_as_listed() {
    assert_eq!(
        add_to_user_path("C:\\Tools\\bin2", "C:\\Tools\\bin"),
        Some("C:\\Tools\\bin2;C:\\Tools\\bin".to_string())
    );
}

#[test]
fn empty_directory_is_listed_by_an_empty_entry() {
    assert_eq!(add_to_user_path("", ""), None);
    assert_eq!(add_to_user_path("A;", ""), None);
    assert_eq!(add_to_user_path("A", ""), Some("A;".to_string()));
}

#[test]
fn non_ascii_letters_keep_their_case() {
    assert_eq!(add_to_user_path("C:\\É", "C:\\é"), Some("C:\\É;C:\\é".to_string()));
}

#[test]
fn adding_twice_is_adding_once() {
    for current in ["", "A", "A;", "A;B", "c:\\tools\\BIN", "x;C:\\Tools\\bin;y"] {
        let once = match add_to_user_path(current, "C:\\Tools\\bin") {
            Some(value) => value,
            None => current.to_string(),
        };
        assert_eq!(add_to_user_path(&once, "C:\\Tools\\bin"), None, "from {:?}", current);
        assert_eq!(add_to_user_path(&once, "c:\\tools\\bin"), None, "from {:?}", current);
        assert!(once.starts_with(current));
    }
}

#[test]
fn a_directory_with_a_semicolon_never_counts_as_listed() {
    let once = add_to_user_path("", "a;b").unwrap();
    assert_eq!(once, "a;b");
    assert_eq!(add_to_user_path(&once, "a;b"), Some("a;b;a;b".to_string()));
}

#[test]
fn notices_of_the_path_update() {
    assert_eq!(listed_text("C:\\pg\\bin"), "Ya en PATH: C:\\pg\\bin\n");
    assert_eq!(
        added_text("C:\\pg\\bin"),
        "Añadido al PATH de usuario: C:\\pg\\bin\nCierra y abre terminal para aplicar\n"
    );
}
