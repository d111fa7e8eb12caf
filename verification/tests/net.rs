use axum::http::{HeaderMap, HeaderValue};
use tj2::net::body::{error_html, Html, SpaPage};
use tj2::net::error::Empty;
use tj2::router::auth::LoginQuery;
use tj2::net::header::{
    accepts_html, is_accepting_html, AcceptIter, Location, MediaType,
};

#[test]
fn accept_header_with_html() {
    assert!(accepts_html("text/html,application/xhtml+xml,application/xml;q=0.9,*/*;q=0.8"));
    assert!(accepts_html("application/json, TEXT/HTML"));
}

#[test]
fn accept_header_without_html() {
    assert!(!accepts_html("application/json"));
    assert!(!accepts_html(""));
    assert!(!accepts_html("text/plain, not a type, */*"));
}

#[test]
fn accept_iter_skips_what_does_not_parse() {
    let mut iter = AcceptIter::from_value("garbage, text/plain ,, application/json");
    assert_eq!(
        iter.next(),
        Some(MediaType { type_: String::from("text"), subtype: String::from("plain") })
    );
    assert_eq!(
        iter.next(),
        Some(MediaType { type_: String::from("application"), subtype: String::from("json") })
    );
    assert_eq!(iter.next(), None);
    assert_eq!(iter.next(), None);
}

#[test]
fn accepting_html_from_headers() {
    let mut headers = HeaderMap::new();
    assert_eq!(is_accepting_html(&headers).unwrap(), false);
    headers.insert("accept", HeaderValue::from_static("text/html"));
    assert_eq!(is_accepting_html(&headers).unwrap(), true);
    headers.insert("accept", HeaderValue::from_bytes(b"text/html\xff").unwrap());
    assert!(is_accepting_html(&headers).is_err());
    assert!(AcceptIter::from_headers(&headers).is_err());
}

#[test]
fn location_to_target() {
    let loc = Location::to(String::from("/journals/1"));
    assert_eq!(loc.into_header_value().unwrap(), "/journals/1");
    let bad = Location::to(String::from("/a\r\nb"));
    assert!(bad.into_header_value().is_err());
}

#[test]
fn login_location_keeps_previous_target() {
    let loc = Location::login(Some("/journals?x=1"));
    assert_eq!(loc.into_header_value().unwrap(), "/login?prev=%2Fjournals%3Fx%3D1");
    let loc = Location::login(None);
    assert_eq!(loc.into_header_value().unwrap(), "/login");
}

#[test]
fn try_login_refuses_what_is_not_a_uri() {
    assert!(Location::try_login(Some("not a uri")).is_none());
    let loc = Location::try_login(None).unwrap();
    assert_eq!(loc.into_header_value().unwrap(), "/login");
}

#[test]
fn url_encoding_round_trip() {
    let loc = Location::login(Some("/a%20b/c?d=e&f"));
    assert_eq!(loc.into_header_value().unwrap(), "/login?prev=%2Fa%2520b%2Fc%3Fd%3De%26f");
    let q = LoginQuery { prev: Some(String::from("%2Fa%2520b%2Fc%3Fd%3De%26f")) };
    assert_eq!(q.get_prev(), Some(String::from("/a%20b/c?d=e&f")));
    let q = LoginQuery { prev: Some(String::from("%FF")) };
    assert_eq!(q.get_prev(), None);
}

#[test]
fn error_page_with_and_without_message() {
    let page = error_html(Some("gone"));
    assert_eq!(
        page.body(),
        "\n<!DOCTYPE html><html lang=\"en\"><head><title>TJ2 - Error</title></head><body><main>gone</main></body></html>"
    );
    let page = error_html(None);
    assert!(page.into_body().contains("<main>There was a problem when requesting this page</main>"));
}

#[test]
fn html_and_spa_bodies() {
    let html = Html::new(String::from("<p>hi</p>"));
    assert_eq!(html.body(), "<p>hi</p>");
    let spa = SpaPage::from_rendered(String::from("<app/>"));
    assert_eq!(spa.into_html().into_body(), "<app/>");
}

#[test]
fn spa_page_from_templates() {
    let mut templates = tera::Tera::default();
    assert!(SpaPage::new(&templates).is_err());
    templates.add_raw_template("pages/spa", "<main id=\"app\"></main>").unwrap();
    let page = SpaPage::new(&templates).unwrap();
    assert_eq!(page.into_html().into_body(), "<main id=\"app\"></main>");
}

#[test]
fn empty_error_message() {
    assert_eq!(Empty.message(), "Empty error response");
}
