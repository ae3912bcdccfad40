use image_cache::fetch::{validate_fetched, FetchError, FetchOutcome};

fn response(content_type: Option<&str>, body: Option<Vec<u8>>) -> FetchOutcome {
    FetchOutcome::Response {
        content_type: content_type.map(|s| s.to_string()),
        body,
    }
}

#[test]
fn a_jpeg_response_is_accepted() {
    let r = validate_fetched(response(Some("image/jpeg"), Some(vec![1, 2, 3]))).unwrap();
    assert_eq!(r.0, "image/jpeg");
    assert_eq!(r.1, vec![1, 2, 3]);
}

#[test]
fn a_png_response_is_accepted() {
    let r = validate_fetched(response(Some("image/png"), Some(vec![4]))).unwrap();
    assert_eq!(r.0, "image/png");
    assert_eq!(r.1, vec![4]);
}

#[test]
fn an_html_response_is_not_an_image() {
    let r = validate_fetched(response(Some("text/html"), Some(vec![1, 2, 3])));
    assert_eq!(r, Err(FetchError::NotAnImage));
}

#[test]
fn a_missing_content_type_is_not_an_image() {
    let r = validate_fetched(response(None, Some(vec![1])));
    assert_eq!(r, Err(FetchError::NotAnImage));
}

#[test]
fn an_unreadable_body_is_not_an_image() {
    let r = validate_fetched(response(Some("image/png"), None));
    assert_eq!(r, Err(FetchError::NotAnImage));
}

#[test]
fn a_transport_failure_is_unreachable() {
    let r = validate_fetched(FetchOutcome::Unreachable);
    assert_eq!(r, Err(FetchError::Unreachable));
}

#[test]
fn content_type_comparison_is_exact() {
    assert_eq!(
        validate_fetched(response(Some("image/jpeg; charset=utf-8"), Some(vec![1]))),
        Err(FetchError::NotAnImage)
    );
    assert_eq!(
        validate_fetched(response(Some("IMAGE/PNG"), Some(vec![1]))),
        Err(FetchError::NotAnImage)
    );
}
