use linkhop::branch::{choose_target, first_hop, second_hop, BranchError};
use linkhop::filename::names_a_file;
use linkhop::headers::filename_from_headers;
use linkhop::links::extract_links;
use linkhop::report::{downloaded, first_link, following, no_links};
use linkhop::resolve::ResolveError;
use reqwest::header::{HeaderMap, HeaderValue, CONTENT_DISPOSITION};

#[test]
fn two_branches_one_download() {
    let seed = "http://site/index";
    let seed_body = "<html><body><a href=\"/a\">a</a><a href=\"/b\">b</a></body></html>";
    let links = extract_links(seed_body).unwrap();
    assert_eq!(links, vec!["/a", "/b"]);

    let page_a = first_hop(seed, &links[0]).unwrap();
    assert_eq!(page_a, "http://site/a");
    assert_eq!(following(&page_a), "Following link: http://site/a");
    let target = second_hop(&page_a, "<a href=\"/file1\">file</a>").unwrap();
    assert_eq!(target, Some("http://site/file1".to_string()));
    assert_eq!(
        first_link(&page_a, target.as_ref().unwrap()),
        "First link on http://site/a: http://site/file1"
    );
    let mut headers = HeaderMap::new();
    headers.insert(
        CONTENT_DISPOSITION,
        HeaderValue::from_static("attachment; filename=one.txt"),
    );
    let name = filename_from_headers(&headers);
    assert_eq!(name, "one.txt");
    assert!(names_a_file(&name));
    assert_eq!(downloaded(&name), "Downloaded file: one.txt");

    let page_b = first_hop(seed, &links[1]).unwrap();
    assert_eq!(page_b, "http://site/b");
    assert_eq!(second_hop(&page_b, "<html><body>empty</body></html>"), Ok(None));
    assert_eq!(no_links(&page_b), "No links found on http://site/b");
}

#[test]
fn only_the_first_link_of_the_page_is_used() {
    let body = "<a href=\"first.bin\">1</a><a href=\"second.bin\">2</a><a href=\"http://[\">3</a>";
    assert_eq!(
        second_hop("http://site/dir/page", body),
        Ok(Some("http://site/dir/first.bin".to_string()))
    );
    let links = vec!["x/y".to_string(), "z".to_string()];
    assert_eq!(
        choose_target("http://site/", &links),
        Ok(Some("http://site/x/y".to_string()))
    );
}

#[test]
fn a_page_without_links_ends_the_branch() {
    assert_eq!(choose_target("http://site/", &Vec::new()), Ok(None));
    assert_eq!(choose_target("no url at all", &Vec::new()), Ok(None));
    assert_eq!(second_hop("http://site/", ""), Ok(None));
}

#[test]
fn a_bad_seed_link_fails_the_first_hop() {
    assert_eq!(
        first_hop("http://site/index", "http://[bad"),
        Err(BranchError::TopLink(ResolveError::Link))
    );
    assert_eq!(
        first_hop("index.html", "/a"),
        Err(BranchError::TopLink(ResolveError::Base))
    );
}

#[test]
fn a_bad_first_link_fails_the_second_hop() {
    assert_eq!(
        second_hop("http://site/a", "<a href=\"http://[bad\">x</a><a href=\"/fine\">y</a>"),
        Err(BranchError::FirstLink(ResolveError::Link))
    );
    assert_eq!(
        second_hop("nowhere", "<a href=\"/fine\">y</a>"),
        Err(BranchError::FirstLink(ResolveError::Base))
    );
}

#[test]
fn a_first_link_of_another_scheme_is_still_the_target() {
    assert_eq!(
        second_hop("http://site/a", "<a href=\"mailto:me@site\">m</a><a href=\"/f\">f</a>"),
        Ok(Some("mailto:me@site".to_string()))
    );
}
