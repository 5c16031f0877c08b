use firm_site::config::bind_address;
use firm_site::config::default_config;
use firm_site::config::startup_message;
use firm_site::decimal::u16_to_decimal;
use firm_site::mime::content_type_for;
use firm_site::response::handle_request;
use firm_site::response::respond_index;
use firm_site::response::respond_not_found;
use firm_site::response::respond_static;
use firm_site::response::AssetOutcome;
use firm_site::routing::route_request;
use firm_site::routing::Route;

#[test]
fn index_route_returns_ok_html() {
    let r = respond_index();
    assert_eq!(r.status, 200);
    let body = String::from_utf8(r.body).unwrap();
    assert!(body.starts_with("<!DOCTYPE html>"));
    assert!(body.ends_with("</html>"));
    assert!(body.contains("Dadgan Law Firm"));
}

#[test]
fn index_route_content_type_exact() {
    let r = respond_index();
    assert_eq!(r.content_type, "text/html; charset=utf-8");
}

#[test]
fn index_route_idempotent() {
    let a = respond_index();
    let b = respond_index();
    let c = handle_request("/", AssetOutcome::Missing);
    assert_eq!(a.body, b.body);
    assert_eq!(a.body, c.body);
    assert_eq!(a.status, c.status);
    assert_eq!(a.content_type, c.content_type);
}

#[test]
fn static_asset_round_trip() {
    let r = respond_static("foo.txt", AssetOutcome::Found(b"bar".to_vec()));
    assert_eq!(r.status, 200);
    assert_eq!(r.body, b"bar".to_vec());
    assert_eq!(r.content_type, "text/plain");
    let h = handle_request("/static/foo.txt", AssetOutcome::Found(b"bar".to_vec()));
    assert_eq!(h.status, 200);
    assert_eq!(h.body, b"bar".to_vec());
}

#[test]
fn missing_asset_not_found() {
    let r = respond_static("does-not-exist.xyz", AssetOutcome::Missing);
    assert_eq!(r.status, 404);
    let body = String::from_utf8(r.body).unwrap();
    assert!(!body.contains("does-not-exist"));
    assert!(body.contains("404 Not Found"));
}

#[test]
fn directory_listing_enumerates_entries() {
    let names = vec![String::from("foo.txt"), String::from("notes"), String::from("sub")];
    let r = respond_static("", AssetOutcome::Listing(names));
    assert_eq!(r.status, 200);
    assert_eq!(r.content_type, "text/html; charset=utf-8");
    let body = String::from_utf8(r.body).unwrap();
    assert!(body.contains("<li>foo.txt</li>"));
    assert!(body.contains("<li>notes</li>"));
    assert!(body.contains("<li>sub</li>"));
    assert!(body.starts_with("<!DOCTYPE html>"));
    assert!(body.ends_with("</html>"));
}

#[test]
fn read_failure_internal_error() {
    let r = respond_static("foo.txt", AssetOutcome::ReadFailure);
    assert_eq!(r.status, 500);
    let body = String::from_utf8(r.body).unwrap();
    assert!(body.contains("500 Internal Server Error"));
}

#[test]
fn unknown_route_not_found() {
    assert!(matches!(route_request("/about"), Route::NotFound));
    assert!(matches!(route_request(""), Route::NotFound));
    assert!(matches!(route_request("/staticx"), Route::NotFound));
    assert!(matches!(route_request("//"), Route::NotFound));
    let r = respond_not_found();
    assert_eq!(r.status, 404);
    let h = handle_request("/about", AssetOutcome::Missing);
    assert_eq!(h.status, 404);
}

#[test]
fn root_route_dispatches_to_index() {
    assert!(matches!(route_request("/"), Route::Index));
}

#[test]
fn static_route_carries_remainder() {
    match route_request("/static/foo.txt") {
        Route::StaticAsset(rel) => assert_eq!(rel, "foo.txt"),
        _ => panic!("expected a static route"),
    }
    match route_request("/static/css/site.css") {
        Route::StaticAsset(rel) => assert_eq!(rel, "css/site.css"),
        _ => panic!("expected a static route"),
    }
    match route_request("/static/") {
        Route::StaticAsset(rel) => assert_eq!(rel, ""),
        _ => panic!("expected a static route"),
    }
    match route_request("/static") {
        Route::StaticAsset(rel) => assert_eq!(rel, ""),
        _ => panic!("expected a static route"),
    }
}

#[test]
fn parent_traversal_rejected() {
    assert!(matches!(route_request("/static/../secret"), Route::NotFound));
    assert!(matches!(route_request("/static/a/../../b"), Route::NotFound));
    assert!(matches!(route_request("/static//etc/passwd"), Route::NotFound));
    let h = handle_request("/static/../secret", AssetOutcome::Found(b"x".to_vec()));
    assert_eq!(h.status, 404);
}

#[test]
fn bind_address_text() {
    let c = default_config();
    assert_eq!(bind_address(&c), "127.0.0.1:8081");
}

#[test]
fn startup_message_text() {
    let c = default_config();
    assert_eq!(
        startup_message(&c),
        "Starting Dadgan Law Firm website on http://localhost:8081"
    );
}

#[test]
fn decimal_numerals() {
    assert_eq!(u16_to_decimal(0), "0");
    assert_eq!(u16_to_decimal(7), "7");
    assert_eq!(u16_to_decimal(10), "10");
    assert_eq!(u16_to_decimal(8081), "8081");
    assert_eq!(u16_to_decimal(65535), "65535");
}

#[test]
fn content_types_by_suffix() {
    assert_eq!(content_type_for("page.html"), "text/html");
    assert_eq!(content_type_for("page.htm"), "text/html");
    assert_eq!(content_type_for("site.css"), "text/css");
    assert_eq!(content_type_for("app.js"), "text/javascript");
    assert_eq!(content_type_for("foo.txt"), "text/plain");
    assert_eq!(content_type_for("logo.png"), "image/png");
    assert_eq!(content_type_for("photo.jpg"), "image/jpeg");
    assert_eq!(content_type_for("photo.jpeg"), "image/jpeg");
    assert_eq!(content_type_for("anim.gif"), "image/gif");
    assert_eq!(content_type_for("icon.svg"), "image/svg+xml");
    assert_eq!(content_type_for("brief.pdf"), "application/pdf");
    assert_eq!(content_type_for("archive.bin"), "application/octet-stream");
    assert_eq!(content_type_for("txt"), "application/octet-stream");
}
