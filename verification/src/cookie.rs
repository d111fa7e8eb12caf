//! The `set-cookie` header: a cookie and its attributes, and the text they
//! make.

use vstd::prelude::*;
use axum::http::HeaderValue;
use axum::http::header::InvalidHeaderValue;
use crate::net::header::{header_value_from_str, is_header_value_text, spec_value_bytes};
use vstd::utf8::encode_utf8;
use crate::text::{push_decimal, push_str, spec_decimal};
use crate::time::{http_date, spec_http_date, Timestamp};

verus! {

/// the `SameSite` attribute of a cookie; `CrossSite` is written `None`
#[derive(Debug, Clone, Copy, PartialEq, Eq, Structural)]
pub enum SameSite {
    Strict,
    Lax,
    CrossSite,
}

impl SameSite {
    /// the attribute's text
    pub open spec fn spec_str(&self) -> Seq<char> {
        match self {
            SameSite::Strict => "Strict"@,
            SameSite::Lax => "Lax"@,
            SameSite::CrossSite => "None"@,
        }
    }

    /// the attribute's text
    pub fn as_str(&self) -> (rtn: &'static str)
        ensures
            rtn@ == self.spec_str(),
    {
        match self {
            SameSite::Strict => "Strict",
            SameSite::Lax => "Lax",
            SameSite::CrossSite => "None",
        }
    }
}

/// a cookie to set, with its attributes; `expires` is a point in time and
/// `max_age` a count of whole seconds
pub struct SetCookie {
    pub key: String,
    pub value: String,
    pub expires: Option<Timestamp>,
    pub max_age: Option<u64>,
    pub domain: Option<String>,
    pub path: Option<String>,
    pub secure: bool,
    pub http_only: bool,
    pub same_site: Option<SameSite>,
}

/// the text of an optional attribute: its lead and its value, or nothing
pub open spec fn opt_attr(lead: Seq<char>, value: Option<Seq<char>>) -> Seq<char> {
    match value {
        Some(v) => lead + v,
        None => Seq::empty(),
    }
}

/// the text of a flag attribute: present or not
pub open spec fn flag_attr(text: Seq<char>, on: bool) -> Seq<char> {
    if on {
        text
    } else {
        Seq::empty()
    }
}

/// the view of an optional string
pub open spec fn opt_view(s: Option<String>) -> Option<Seq<char>> {
    match s {
        Some(v) => Some(v@),
        None => None,
    }
}


/// appends the `Expires` attribute, if any
fn push_expires(s: &mut String, expires: &Option<Timestamp>)
    requires
        expires matches Some(e) ==> e.wf(),
    ensures
        final(s)@ == old(s)@ + opt_attr(
            "; Expires="@,
            match *expires {
                Some(e) => Some(spec_http_date(e.secs, e.nanos)),
                None => None,
            },
        ),
{
    match expires {
        Some(e) => {
            let date = http_date(e);
            push_str(s, "; Expires=");
            push_str(s, date.as_str());
        },
        None => {
            assert(s@ =~= s@ + Seq::<char>::empty());
        },
    }
}

/// appends the `Max-Age` attribute, if any
fn push_max_age(s: &mut String, max_age: &Option<u64>)
    ensures
        final(s)@ == old(s)@ + opt_attr(
            "; Max-Age="@,
            match *max_age {
                Some(secs) => Some(spec_decimal(secs as nat)),
                None => None,
            },
        ),
{
    match max_age {
        Some(secs) => {
            push_str(s, "; Max-Age=");
            push_decimal(s, *secs);
        },
        None => {
            assert(s@ =~= s@ + Seq::<char>::empty());
        },
    }
}

/// appends an attribute with a text value, if it has one
fn push_opt_attr(s: &mut String, lead: &str, value: &Option<String>)
    ensures
        final(s)@ == old(s)@ + opt_attr(lead@, opt_view(*value)),
{
    match value {
        Some(v) => {
            push_str(s, lead);
            push_str(s, v.as_str());
        },
        None => {
            assert(s@ =~= s@ + Seq::<char>::empty());
        },
    }
}

/// appends a flag attribute when it is on
fn push_flag_attr(s: &mut String, text: &str, on: bool)
    ensures
        final(s)@ == old(s)@ + flag_attr(text@, on),
{
    if on {
        push_str(s, text);
    } else {
        assert(s@ =~= s@ + Seq::<char>::empty());
    }
}

/// appends the `SameSite` attribute, if any
fn push_same_site(s: &mut String, same_site: &Option<SameSite>)
    ensures
        final(s)@ == old(s)@ + opt_attr(
            "; SameSite="@,
            match *same_site {
                Some(site) => Some(site.spec_str()),
                None => None,
            },
        ),
{
    match same_site {
        Some(site) => {
            push_str(s, "; SameSite=");
            push_str(s, site.as_str());
        },
        None => {
            assert(s@ =~= s@ + Seq::<char>::empty());
        },
    }
}

impl SetCookie {
    /// the `set-cookie` text of the cookie: `key=value`, then each attribute
    /// that is set, in a fixed order
    pub open spec fn spec_text(&self) -> Seq<char> {
        self.key@ + "="@ + self.value@
            + opt_attr(
            "; Expires="@,
            match self.expires {
                Some(e) => Some(spec_http_date(e.secs, e.nanos)),
                None => None,
            },
        ) + opt_attr(
            "; Max-Age="@,
            match self.max_age {
                Some(s) => Some(spec_decimal(s as nat)),
                None => None,
            },
        ) + opt_attr("; Domain="@, opt_view(self.domain)) + opt_attr(
            "; Path="@,
            opt_view(self.path),
        ) + flag_attr("; Secure"@, self.secure) + flag_attr("; HttpOnly"@, self.http_only)
            + opt_attr(
            "; SameSite="@,
            match self.same_site {
                Some(s) => Some(s.spec_str()),
                None => None,
            },
        )
    }

    /// the expiry can be written out
    pub open spec fn wf(&self) -> bool {
        self.expires matches Some(e) ==> e.wf()
    }

    /// a cookie with no attributes set
    pub fn new(key: String, value: String) -> (rtn: Self)
        ensures
            rtn.key@ == key@,
            rtn.value@ == value@,
            rtn.expires is None,
            rtn.max_age is None,
            rtn.domain is None,
            rtn.path is None,
            !rtn.secure,
            !rtn.http_only,
            rtn.same_site is None,
    {
        SetCookie {
            key,
            value,
            expires: None,
            max_age: None,
            domain: None,
            path: None,
            secure: false,
            http_only: false,
            same_site: None,
        }
    }

    /// the cookie's key
    pub fn key(&self) -> (rtn: &str)
        ensures
            rtn@ == self.key@,
    {
        self.key.as_str()
    }

    /// the cookie's value
    pub fn value(&self) -> (rtn: &str)
        ensures
            rtn@ == self.value@,
    {
        self.value.as_str()
    }

    /// when the cookie expires, if set
    pub fn expires(&self) -> (rtn: Option<&Timestamp>)
        ensures
            match self.expires {
                Some(e) => rtn == Some(&e),
                None => rtn is None,
            },
    {
        match &self.expires {
            Some(e) => Some(e),
            None => None,
        }
    }

    /// the cookie's lifetime in seconds, if set
    pub fn max_age(&self) -> (rtn: Option<&u64>)
        ensures
            match self.max_age {
                Some(s) => rtn == Some(&s),
                None => rtn is None,
            },
    {
        match &self.max_age {
            Some(s) => Some(s),
            None => None,
        }
    }

    /// the cookie's domain, if set
    pub fn domain(&self) -> (rtn: Option<&str>)
        ensures
            match self.domain {
                Some(d) => rtn matches Some(r) && r@ == d@,
                None => rtn is None,
            },
    {
        match &self.domain {
            Some(d) => Some(d.as_str()),
            None => None,
        }
    }

    /// the cookie's path, if set
    pub fn path(&self) -> (rtn: Option<&str>)
        ensures
            match self.path {
                Some(p) => rtn matches Some(r) && r@ == p@,
                None => rtn is None,
            },
    {
        match &self.path {
            Some(p) => Some(p.as_str()),
            None => None,
        }
    }

    /// whether the cookie is only sent over https
    pub fn secure(&self) -> (rtn: &bool)
        ensures
            *rtn == self.secure,
    {
        &self.secure
    }

    /// whether scripts are kept from the cookie
    pub fn http_only(&self) -> (rtn: &bool)
        ensures
            *rtn == self.http_only,
    {
        &self.http_only
    }

    /// the cookie's `SameSite` attribute, if set
    pub fn same_site(&self) -> (rtn: Option<&SameSite>)
        ensures
            match self.same_site {
                Some(s) => rtn == Some(&s),
                None => rtn is None,
            },
    {
        match &self.same_site {
            Some(s) => Some(s),
            None => None,
        }
    }

    /// sets when the cookie expires
    pub fn set_expires(&mut self, expires: Timestamp) -> (rtn: &mut Self)
        ensures
            *rtn == (SetCookie { expires: Some(expires), ..*old(self) }),
            *final(self) == *final(rtn),
    {
        self.expires = Some(expires);
        self
    }

    /// the cookie with the given expiry
    pub fn with_expires(self, expires: Timestamp) -> (rtn: Self)
        ensures
            rtn == (SetCookie { expires: Some(expires), ..self }),
    {
        let mut rtn = self;
        rtn.expires = Some(expires);
        rtn
    }

    /// sets the cookie's lifetime in seconds
    pub fn set_max_age(&mut self, max_age: u64) -> (rtn: &mut Self)
        ensures
            *rtn == (SetCookie { max_age: Some(max_age), ..*old(self) }),
            *final(self) == *final(rtn),
    {
        self.max_age = Some(max_age);
        self
    }

    /// the cookie with the given lifetime in seconds
    pub fn with_max_age(self, max_age: u64) -> (rtn: Self)
        ensures
            rtn == (SetCookie { max_age: Some(max_age), ..self }),
    {
        let mut rtn = self;
        rtn.max_age = Some(max_age);
        rtn
    }

    /// sets the cookie's domain
    pub fn set_domain(&mut self, domain: String) -> (rtn: &mut Self)
        ensures
            *rtn == (SetCookie { domain: Some(domain), ..*old(self) }),
            *final(self) == *final(rtn),
    {
        self.domain = Some(domain);
        self
    }

    /// the cookie with the given domain
    pub fn with_domain(self, domain: String) -> (rtn: Self)
        ensures
            rtn == (SetCookie { domain: Some(domain), ..self }),
    {
        let mut rtn = self;
        rtn.domain = Some(domain);
        rtn
    }

    /// sets the cookie's path
    pub fn set_path(&mut self, path: String) -> (rtn: &mut Self)
        ensures
            *rtn == (SetCookie { path: Some(path), ..*old(self) }),
            *final(self) == *final(rtn),
    {
        self.path = Some(path);
        self
    }

    /// the cookie with the given path
    pub fn with_path(self, path: String) -> (rtn: Self)
        ensures
            rtn == (SetCookie { path: Some(path), ..self }),
    {
        let mut rtn = self;
        rtn.path = Some(path);
        rtn
    }

    /// sets whether the cookie is only sent over https
    pub fn set_secure(&mut self, secure: bool) -> (rtn: &mut Self)
        ensures
            *rtn == (SetCookie { secure, ..*old(self) }),
            *final(self) == *final(rtn),
    {
        self.secure = secure;
        self
    }

    /// the cookie with the given `Secure` flag
    pub fn with_secure(self, secure: bool) -> (rtn: Self)
        ensures
            rtn == (SetCookie { secure, ..self }),
    {
        let mut rtn = self;
        rtn.secure = secure;
        rtn
    }

    /// sets whether scripts are kept from the cookie
    pub fn set_http_only(&mut self, http_only: bool) -> (rtn: &mut Self)
        ensures
            *rtn == (SetCookie { http_only, ..*old(self) }),
            *final(self) == *final(rtn),
    {
        self.http_only = http_only;
        self
    }

    /// the cookie with the given `HttpOnly` flag
    pub fn with_http_only(self, http_only: bool) -> (rtn: Self)
        ensures
            rtn == (SetCookie { http_only, ..self }),
    {
        let mut rtn = self;
        rtn.http_only = http_only;
        rtn
    }

    /// sets the cookie's `SameSite` attribute
    pub fn set_same_site(&mut self, same_site: SameSite) -> (rtn: &mut Self)
        ensures
            *rtn == (SetCookie { same_site: Some(same_site), ..*old(self) }),
            *final(self) == *final(rtn),
    {
        self.same_site = Some(same_site);
        self
    }

    /// the cookie with the given `SameSite` attribute
    pub fn with_same_site(self, same_site: SameSite) -> (rtn: Self)
        ensures
            rtn == (SetCookie { same_site: Some(same_site), ..self }),
    {
        let mut rtn = self;
        rtn.same_site = Some(same_site);
        rtn
    }

    /// the `set-cookie` text of the cookie
    pub fn header_text(&self) -> (rtn: String)
        requires
            self.wf(),
        ensures
            rtn@ == self.spec_text(),
    {
        let mut rtn = String::new();
        push_str(&mut rtn, self.key.as_str());
        push_str(&mut rtn, "=");
        push_str(&mut rtn, self.value.as_str());
        assert(rtn@ =~= self.key@ + "="@ + self.value@);
        push_expires(&mut rtn, &self.expires);
        push_max_age(&mut rtn, &self.max_age);
        push_opt_attr(&mut rtn, "; Domain=", &self.domain);
        push_opt_attr(&mut rtn, "; Path=", &self.path);
        push_flag_attr(&mut rtn, "; Secure", self.secure);
        push_flag_attr(&mut rtn, "; HttpOnly", self.http_only);
        push_same_site(&mut rtn, &self.same_site);
        rtn
    }

    /// the `set-cookie` header value of the cookie: the utf-8 bytes of its
    /// text, or an error when the text holds a character that a header
    /// value cannot
    pub fn into_header_value(self) -> (rtn: Result<HeaderValue, InvalidHeaderValue>)
        requires
            self.wf(),
        ensures
            rtn is Ok <==> is_header_value_text(self.spec_text()),
            rtn matches Ok(v) ==> spec_value_bytes(v) == encode_utf8(self.spec_text()),
    {
        let text = self.header_text();
        header_value_from_str(text.as_str())
    }
}

} // verus!
