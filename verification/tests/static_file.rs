use fcgi_front::static_file::is_allowed_static_file;

#[test]
fn test_valid_static_files() {
    assert_eq!(is_allowed_static_file("test.css"), true);
    assert_eq!(is_allowed_static_file("test.js"), true);
    assert_eq!(is_allowed_static_file("index.png"), true);
    assert_eq!(is_allowed_static_file("index.jpg"), true);
    assert_eq!(is_allowed_static_file("index.jpeg"), true);
    assert_eq!(is_allowed_static_file("index.gif"), true);
    assert_eq!(is_allowed_static_file("index.svg"), true);
    assert_eq!(is_allowed_static_file("index.ico"), true);
    assert_eq!(is_allowed_static_file("index.html"), true);
}

#[test]
fn test_not_accepted_as_static_file() {
    assert_eq!(is_allowed_static_file("index.php"), false);
}

#[test]
fn test_static_allow_list_is_case_sensitive() {
    // The allow-list is matched literally: an upper-case extension is not in it.
    assert_eq!(is_allowed_static_file("x.css"), true);
    assert_eq!(is_allowed_static_file("x.php"), false);
    assert_eq!(is_allowed_static_file("x.CSS"), false);
}

#[test]
fn test_extension_must_be_a_suffix() {
    assert_eq!(is_allowed_static_file(".css"), true);
    assert_eq!(is_allowed_static_file("css"), false);
    assert_eq!(is_allowed_static_file("x.css.bak"), false);
    assert_eq!(is_allowed_static_file(""), false);
}
