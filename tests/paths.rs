use doc_anonymisation::paths::{extension, file_name, join};

#[test]
fn extension_is_what_follows_the_last_dot() {
    assert_eq!(extension("report.txt"), "txt");
    assert_eq!(extension("archive.tar.gz"), "gz");
    assert_eq!(extension("/home/user/scan.pdf"), "pdf");
}

#[test]
fn extension_without_a_dot_is_empty() {
    assert_eq!(extension("README"), "");
    assert_eq!(extension(""), "");
}

#[test]
fn extension_is_taken_from_the_whole_path() {
    assert_eq!(extension("dir.d/file"), "d/file");
    assert_eq!(extension("trailing."), "");
}

#[test]
fn file_name_is_the_last_component() {
    assert_eq!(file_name("a/b/c.txt"), Some("c.txt".to_string()));
    assert_eq!(file_name("c.txt"), Some("c.txt".to_string()));
    assert_eq!(file_name("/tmp/dir/"), Some("dir".to_string()));
    assert_eq!(file_name("a//b//"), Some("b".to_string()));
}

#[test]
fn file_name_is_missing_for_roots_and_dot_components() {
    assert_eq!(file_name(""), None);
    assert_eq!(file_name("/"), None);
    assert_eq!(file_name("a/.."), None);
    assert_eq!(file_name("a/."), None);
}

#[test]
fn join_puts_one_separator_between() {
    assert_eq!(join("a", "b.txt"), "a/b.txt");
    assert_eq!(join("a/", "b.txt"), "a/b.txt");
    assert_eq!(join("", "b.txt"), "b.txt");
}
