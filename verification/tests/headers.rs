use linkhop::headers::{content_disposition, filename_from_headers};
use reqwest::header::{HeaderMap, HeaderName, HeaderValue, CONTENT_DISPOSITION, CONTENT_TYPE};

#[test]
fn filename_is_read_from_the_response_headers() {
    let mut headers = HeaderMap::new();
    headers.insert(CONTENT_TYPE, HeaderValue::from_static("application/pdf"));
    headers.insert(
        CONTENT_DISPOSITION,
        HeaderValue::from_static("attachment; filename=report.pdf"),
    );
    assert_eq!(
        content_disposition(&headers),
        Some("attachment; filename=report.pdf")
    );
    assert_eq!(filename_from_headers(&headers), "report.pdf");
}

#[test]
fn headers_without_content_disposition_give_the_sentinel() {
    let mut headers = HeaderMap::new();
    assert_eq!(content_disposition(&headers), None);
    assert_eq!(filename_from_headers(&headers), "nothing_to_download");
    headers.insert(CONTENT_TYPE, HeaderValue::from_static("filename=wrong.txt"));
    assert_eq!(content_disposition(&headers), None);
    assert_eq!(filename_from_headers(&headers), "nothing_to_download");
}

#[test]
fn the_header_name_is_matched_whatever_its_case() {
    let mut headers = HeaderMap::new();
    headers.insert(
        HeaderName::from_bytes(b"CONTENT-disposition").unwrap(),
        HeaderValue::from_static("attachment; filename=case.txt"),
    );
    assert_eq!(filename_from_headers(&headers), "case.txt");
}

#[test]
fn the_first_of_several_headers_is_read() {
    let mut headers = HeaderMap::new();
    headers.append(CONTENT_DISPOSITION, HeaderValue::from_static("inline"));
    headers.append(
        CONTENT_DISPOSITION,
        HeaderValue::from_static("attachment; filename=later.txt"),
    );
    assert_eq!(content_disposition(&headers), Some("inline"));
    assert_eq!(filename_from_headers(&headers), "nothing_to_download");
}

#[test]
fn a_value_that_is_no_visible_text_gives_the_sentinel() {
    let mut headers = HeaderMap::new();
    headers.insert(
        CONTENT_DISPOSITION,
        HeaderValue::from_bytes(b"attachment; filename=caf\xc3\xa9.txt").unwrap(),
    );
    assert_eq!(content_disposition(&headers), None);
    assert_eq!(filename_from_headers(&headers), "nothing_to_download");
}

#[test]
fn a_tab_in_the_value_is_text() {
    let mut headers = HeaderMap::new();
    headers.insert(
        CONTENT_DISPOSITION,
        HeaderValue::from_bytes(b"attachment;\tfilename=\ttab.txt").unwrap(),
    );
    assert_eq!(filename_from_headers(&headers), "tab.txt");
}
