use thumbnail_preloader::files::work_list;

fn path(name: &str) -> Option<String> {
    Some(name.to_string())
}

#[test]
fn work_list_keeps_resolved_entries_in_order() {
    let files = work_list(vec![path("C:\\d\\a.jpg"), path("C:\\d\\b.txt"), path("C:\\d\\c.png")]);
    assert_eq!(files, vec!["C:\\d\\a.jpg", "C:\\d\\b.txt", "C:\\d\\c.png"]);
}

#[test]
fn work_list_drops_entries_without_a_canonical_path() {
    let files = work_list(vec![None, path("a"), None, None, path("b"), path("a"), None]);
    assert_eq!(files, vec!["a", "b", "a"]);
    assert!(files.len() <= 7);
}

#[test]
fn work_list_of_an_empty_directory_is_empty() {
    let none: Vec<Option<String>> = Vec::new();
    assert!(work_list(none).is_empty());
    let dropped: Vec<Option<u8>> = vec![None, None];
    assert!(work_list(dropped).is_empty());
}
