use tj2::cookie::{SameSite, SetCookie};
use tj2::time::Timestamp;

#[test]
fn same_site_texts() {
    assert_eq!(SameSite::Strict.as_str(), "Strict");
    assert_eq!(SameSite::Lax.as_str(), "Lax");
    assert_eq!(SameSite::CrossSite.as_str(), "None");
}

#[test]
fn bare_cookie_text() {
    let cookie = SetCookie::new(String::from("session"), String::from("abc"));
    assert_eq!(cookie.key(), "session");
    assert_eq!(cookie.value(), "abc");
    assert!(cookie.expires().is_none());
    assert!(!*cookie.secure());
    assert_eq!(cookie.header_text(), "session=abc");
}

#[test]
fn cookie_with_every_attribute() {
    let cookie = SetCookie::new(String::from("session"), String::from("abc"))
        .with_expires(Timestamp { secs: 0, nanos: 0 })
        .with_max_age(3600)
        .with_domain(String::from("example.com"))
        .with_path(String::from("/"))
        .with_secure(true)
        .with_http_only(true)
        .with_same_site(SameSite::Strict);
    assert_eq!(
        cookie.header_text(),
        "session=abc; Expires=Thu, 01 Jan 1970 00:00:00 GMT; Max-Age=3600; Domain=example.com; Path=/; Secure; HttpOnly; SameSite=Strict"
    );
    assert_eq!(
        cookie.into_header_value().unwrap(),
        "session=abc; Expires=Thu, 01 Jan 1970 00:00:00 GMT; Max-Age=3600; Domain=example.com; Path=/; Secure; HttpOnly; SameSite=Strict"
    );
}

#[test]
fn cookie_setters_chain() {
    let mut cookie = SetCookie::new(String::from("k"), String::from("v"));
    cookie.set_max_age(0).set_same_site(SameSite::Lax).set_http_only(true);
    assert_eq!(cookie.max_age(), Some(&0));
    assert_eq!(cookie.same_site(), Some(&SameSite::Lax));
    assert_eq!(cookie.header_text(), "k=v; Max-Age=0; HttpOnly; SameSite=Lax");
    cookie.set_path(String::from("/app")).set_domain(String::from("d")).set_secure(true);
    assert_eq!(cookie.path(), Some("/app"));
    assert_eq!(cookie.domain(), Some("d"));
    cookie.set_expires(Timestamp { secs: 86_400, nanos: 0 });
    assert_eq!(cookie.expires(), Some(&Timestamp { secs: 86_400, nanos: 0 }));
    assert_eq!(
        cookie.header_text(),
        "k=v; Expires=Fri, 02 Jan 1970 00:00:00 GMT; Max-Age=0; Domain=d; Path=/app; Secure; HttpOnly; SameSite=Lax"
    );
}

#[test]
fn cookie_with_control_character_is_refused() {
    let cookie = SetCookie::new(String::from("k"), String::from("a\nb"));
    assert!(cookie.into_header_value().is_err());
}

#[test]
fn cookie_with_tab_is_accepted() {
    let cookie = SetCookie::new(String::from("k"), String::from("a\tb"));
    assert_eq!(cookie.into_header_value().unwrap(), "k=a\tb");
}
