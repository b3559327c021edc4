use linkhop::report::{downloaded, first_link, following, no_links};

#[test]
fn lines_read_as_expected() {
    assert_eq!(following("http://site/a"), "Following link: http://site/a");
    assert_eq!(
        first_link("http://site/a", "http://site/file1"),
        "First link on http://site/a: http://site/file1"
    );
    assert_eq!(downloaded("one.txt"), "Downloaded file: one.txt");
    assert_eq!(downloaded("nothing_to_download"), "Downloaded file: nothing_to_download");
    assert_eq!(no_links("http://site/b"), "No links found on http://site/b");
}

#[test]
fn lines_keep_empty_parts() {
    assert_eq!(following(""), "Following link: ");
    assert_eq!(first_link("", ""), "First link on : ");
    assert_eq!(downloaded(""), "Downloaded file: ");
    assert_eq!(no_links(""), "No links found on ");
}
