//! Behavior of the two-tier extension resolution.

use mime_ext::mime_to_ext;
use mime_ext::remote_file_ext;
use mime_ext::text::normalize;
use mime_ext::ExtError;
use mime_ext::Response;
use mime_ext::ShortStr;
use mime_ext::MAX_SHORT_STR_LEN;

fn response(url: &str, content_type: Option<&str>) -> Response {
    Response::new(url.to_string(), content_type.map(|s| s.to_string()))
}

#[test]
fn lookup_returns_the_documented_extension() {
    assert_eq!(mime_to_ext("application/pdf").unwrap().as_str(), ".pdf");
    assert_eq!(mime_to_ext("text/plain").unwrap().as_str(), ".txt");
    assert_eq!(mime_to_ext("text/html").unwrap().as_str(), ".html");
    assert_eq!(mime_to_ext("image/jpeg").unwrap().as_str(), ".jpeg");
    assert_eq!(mime_to_ext("audio/wav").unwrap().as_str(), ".wav");
    assert_eq!(mime_to_ext("video/mpeg").unwrap().as_str(), ".mpeg");
    assert_eq!(mime_to_ext("application/x-zip-compressed").unwrap().as_str(), ".zip");
    assert_eq!(mime_to_ext("application/msword").unwrap().as_str(), ".doc");
    assert_eq!(
        mime_to_ext("application/vnd.openxmlformats-officedocument.spreadsheetml.sheet")
            .unwrap()
            .as_str(),
        ".xlsx"
    );
    assert_eq!(mime_to_ext("application/x-x509-ca-cert").unwrap().as_str(), ".crt");
    assert_eq!(mime_to_ext("application/x-pkcs12").unwrap().as_str(), ".p12");
}

#[test]
fn octet_stream_maps_to_the_empty_extension() {
    let ext = mime_to_ext("application/octet-stream").unwrap();
    assert_eq!(ext.as_str(), "");
    assert!(ext.is_empty());
}

#[test]
fn unknown_mime_type_fails_with_the_unnormalized_input() {
    match mime_to_ext("application/x-no-such-type; charset=utf-8") {
        Err(ExtError::UnknownMimeType(carried)) => {
            assert_eq!(carried, "application/x-no-such-type; charset=utf-8");
        }
        _ => panic!("expected an unknown-MIME-type failure"),
    }
}

#[test]
fn plus_suffix_and_parameter_list_normalize_alike() {
    assert_eq!(normalize("application/atom+xml"), "application/atom");
    assert_eq!(normalize("application/atom; charset=utf-8"), "application/atom");
    assert_eq!(mime_to_ext("application/atom+xml").unwrap().as_str(), ".atom");
    assert_eq!(mime_to_ext("application/atom; charset=utf-8").unwrap().as_str(), ".atom");
}

#[test]
fn normalization_splits_at_whichever_separator_comes_first() {
    assert_eq!(normalize("a/b;x+y"), "a/b");
    assert_eq!(normalize("a/b+x;y"), "a/b");
    assert_eq!(normalize("plain"), "plain");
    assert_eq!(normalize(""), "");
}

#[test]
fn url_extension_wins_without_consulting_headers() {
    // The header names a known type, yet the URL-derived extension is
    // returned verbatim, case preserved.
    let r = response("https://example.com/files/report.PDF", Some("image/png"));
    assert_eq!(remote_file_ext(&r).unwrap().as_str(), ".PDF");
}

#[test]
fn dotless_url_falls_back_to_the_content_type() {
    let r = response("https://example-host/download", Some("image/png"));
    assert_eq!(remote_file_ext(&r).unwrap().as_str(), ".png");
}

#[test]
fn dotless_url_without_content_type_is_a_distinct_failure() {
    let r = response("https://example-host/download", None);
    match remote_file_ext(&r) {
        Err(ExtError::MissingContentType) => {}
        _ => panic!("expected a missing-content-type failure"),
    }
}

#[test]
fn dotless_url_with_unknown_content_type_reports_the_header_value() {
    let r = response("https://example-host/download", Some("application/x-no-such-type"));
    match remote_file_ext(&r) {
        Err(ExtError::UnknownMimeType(carried)) => {
            assert_eq!(carried, "application/x-no-such-type");
        }
        _ => panic!("expected an unknown-MIME-type failure"),
    }
}

#[test]
fn a_dot_in_the_host_is_treated_as_an_extension_separator() {
    // The last dot of the full URL string wins, an accepted simplification:
    // no path-component parsing is done.
    let r = response("https://example.com/download", Some("image/png"));
    assert_eq!(remote_file_ext(&r).unwrap().as_str(), ".com/download");
}

#[test]
fn over_long_url_extension_fails_without_header_fallback() {
    let long_ext = "x".repeat(64);
    let url = format!("https://example-host/file.{long_ext}");
    // A known content type is declared, but the too-long URL suffix is a hard
    // error: resolution must not fall through to the MIME table.
    let r = response(&url, Some("image/png"));
    match remote_file_ext(&r) {
        Err(ExtError::ExtensionTooLong(carried)) => {
            assert_eq!(carried, format!(".{long_ext}"));
        }
        _ => panic!("expected an extension-too-long failure"),
    }
}

#[test]
fn extension_length_boundary() {
    // Exactly at the bound: kept.
    let at_bound = format!("https://host/f.{}", "a".repeat(MAX_SHORT_STR_LEN - 1));
    let r = response(&at_bound, None);
    assert_eq!(remote_file_ext(&r).unwrap().as_str().len(), MAX_SHORT_STR_LEN);
    // One past the bound: rejected.
    let past_bound = format!("https://host/f.{}", "a".repeat(MAX_SHORT_STR_LEN));
    let r = response(&past_bound, None);
    match remote_file_ext(&r) {
        Err(ExtError::ExtensionTooLong(_)) => {}
        _ => panic!("expected an extension-too-long failure"),
    }
}

#[test]
fn trailing_dot_yields_the_bare_dot_extension() {
    // A URL ending in "." yields the bare "." and never consults the header:
    // any dot, even a trailing one, settles the first tier.
    let r = response("https://host/name.", Some("image/png"));
    assert_eq!(remote_file_ext(&r).unwrap().as_str(), ".");
}

#[test]
fn resolution_is_idempotent() {
    let ok = response("https://example.com/files/report.PDF", Some("image/png"));
    let first = remote_file_ext(&ok).unwrap();
    let second = remote_file_ext(&ok).unwrap();
    assert_eq!(first.as_str(), second.as_str());

    let err = response("https://example-host/download", None);
    let first = remote_file_ext(&err);
    let second = remote_file_ext(&err);
    assert!(matches!(first, Err(ExtError::MissingContentType)));
    assert!(matches!(second, Err(ExtError::MissingContentType)));
}

#[test]
fn short_str_construction_enforces_the_bound() {
    let fits = ShortStr::new(&"a".repeat(MAX_SHORT_STR_LEN)).unwrap();
    assert_eq!(fits.as_str().len(), MAX_SHORT_STR_LEN);
    assert!(ShortStr::new(&"a".repeat(MAX_SHORT_STR_LEN + 1)).is_none());
    let empty = ShortStr::new("").unwrap();
    assert!(empty.is_empty());
}

#[test]
fn response_accessors_reflect_the_stored_values() {
    let r = response("https://host/a.txt", Some("text/plain"));
    assert_eq!(r.get_url(), "https://host/a.txt");
    assert_eq!(r.header_content_type(), Some("text/plain"));
    let bare = response("https://host/a.txt", None);
    assert_eq!(bare.header_content_type(), None);
}
