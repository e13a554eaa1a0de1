use prezpack::mime::{sniff_html, Mime, SNIFF_LEN};

#[test]
fn extension_decides_when_known() {
    assert_eq!(Mime::detect("site/readme.txt", b"<html>").to_string(), "text/plain");
    assert_eq!(Mime::detect("site/index.html", b"").to_string(), "text/html");
    assert_eq!(Mime::detect("site/logo.png", b"html").to_string(), "image/png");
}

#[test]
fn unknown_extension_is_sniffed() {
    assert_eq!(Mime::detect("site/page", b"<!doctype html>").to_string(), "text/html");
    assert_eq!(Mime::detect("site/page", b"plain words").to_string(), "application/octet-stream");
    assert_eq!(Mime::detect("site/page", b"").to_string(), "application/octet-stream");
}

#[test]
fn resolve_prefers_the_suggestion() {
    let suggested = Mime::resolve(Some("text/css".to_string()), b"html");
    assert_eq!(suggested.as_str(), "text/css");
    assert_eq!(Mime::resolve(None, b"xhtmlx").as_str(), "text/html");
    assert_eq!(Mime::resolve(None, b"htm").as_str(), "application/octet-stream");
}

#[test]
fn sniff_finds_marker_anywhere_in_window() {
    assert!(sniff_html(b"html"));
    assert!(sniff_html(b"....html"));
    assert!(!sniff_html(b"htm"));
    assert!(!sniff_html(b"ht ml"));
    assert!(!sniff_html(b"HTML"));
}

#[test]
fn sniff_stops_at_window_end() {
    assert_eq!(SNIFF_LEN, 100);
    let mut inside = vec![b' '; 96];
    inside.extend_from_slice(b"html");
    assert_eq!(inside.len(), 100);
    assert!(sniff_html(&inside));
    let mut straddling = vec![b' '; 97];
    straddling.extend_from_slice(b"html");
    assert!(!sniff_html(&straddling));
    let mut outside = vec![b' '; 100];
    outside.extend_from_slice(b"html");
    assert!(!sniff_html(&outside));
}

#[test]
fn constants_and_copies() {
    assert_eq!(Mime::text_html().as_str(), "text/html");
    assert_eq!(Mime::octet_stream().as_str(), "application/octet-stream");
    let mime = Mime::new("image/svg+xml".to_string());
    assert_eq!(mime.duplicate().to_string(), "image/svg+xml");
}
