//! Request and response headers: reading the `accept` header, and the
//! `location` header of redirects.

use vstd::prelude::*;
use vstd::utf8::encode_utf8;
use axum::http::{HeaderMap, HeaderValue};
use axum::http::header::{InvalidHeaderValue, ToStrError};
use crate::text::{
    ascii_lowercase, push_str, spec_ascii_lowercase, spec_split, spec_trim, split_char,
    str_eq, string_views, to_owned_string, trim,
};

verus! {

/// a header value, carried through the library unread
#[verifier::external_type_specification]
#[verifier::external_body]
pub struct ExHeaderValue(axum::http::HeaderValue);

/// the error of a text that cannot be a header value
#[verifier::external_type_specification]
#[verifier::external_body]
pub struct ExInvalidHeaderValue(axum::http::header::InvalidHeaderValue);

/// the error of a header value that is not visible ascii text
#[verifier::external_type_specification]
#[verifier::external_body]
pub struct ExToStrError(axum::http::header::ToStrError);

/// the headers of a request
#[verifier::external_type_specification]
#[verifier::external_body]
#[verifier::reject_recursive_types(T)]
pub struct ExHeaderMap<T>(axum::http::HeaderMap<T>);

/// whether a character may stand in a header value: http accepts every byte
/// from 32 up but 127, and the tab; a character past ascii is made of bytes
/// from 128 up, which are all accepted
pub open spec fn is_header_value_char(c: char) -> bool {
    (c as u32 >= 32 && c as u32 != 127) || c == '\t'
}

/// whether a whole text may be a header value
pub open spec fn is_header_value_text(s: Seq<char>) -> bool {
    forall|i: int| 0 <= i < s.len() ==> is_header_value_char(#[trigger] s[i])
}

/// Calls `HeaderValue::from_str`. As http's source shows, it fails exactly
/// when a byte of the text is below 32 (other than the tab) or is 127, and
/// the value it makes holds the text's utf-8 bytes unchanged.
#[verifier::external_body]
pub(crate) fn header_value_from_str(s: &str) -> (rtn: Result<HeaderValue, InvalidHeaderValue>)
    ensures
        rtn is Ok <==> is_header_value_text(s@),
        rtn matches Ok(v) ==> spec_value_bytes(v) == encode_utf8(s@),
{
    HeaderValue::from_str(s)
}

/// what the headers of a request hold: for each header name, in lowercase,
/// the bytes of the first value given for it
pub uninterp spec fn spec_headers(headers: HeaderMap) -> Map<Seq<char>, Seq<u8>>;

/// the bytes a header value holds
pub uninterp spec fn spec_value_bytes(value: HeaderValue) -> Seq<u8>;

/// whether a text is a header name as http stores it: not empty, of
/// lowercase letters, digits and `-`
pub open spec fn is_lower_header_name(s: Seq<char>) -> bool {
    s.len() > 0 && forall|i: int|
        0 <= i < s.len() ==> (('a' <= #[trigger] s[i] && s[i] <= 'z') || ('0' <= s[i] && s[i] <= '9') || s[i]
            == '-')
}

/// whether a byte is visible ascii or the tab, as `HeaderValue::to_str`
/// accepts it
pub open spec fn is_visible_ascii(b: u8) -> bool {
    (32 <= b && b < 127) || b == 9
}

/// the text of ascii bytes, one character for each byte
pub open spec fn spec_ascii_text(bytes: Seq<u8>) -> Seq<char> {
    bytes.map_values(|b: u8| b as char)
}

/// the text of a request's header: `None` when the request has no such
/// header, `Some(None)` when its first value is not visible ascii, else
/// the value as text
pub open spec fn spec_header_text(headers: Map<Seq<char>, Seq<u8>>, name: Seq<char>) -> Option<Option<Seq<char>>> {
    if !headers.dom().contains(name) {
        None
    } else if forall|i: int| 0 <= i < headers[name].len() ==> is_visible_ascii(#[trigger] headers[name][i]) {
        Some(Some(spec_ascii_text(headers[name])))
    } else {
        Some(None)
    }
}

/// Calls `HeaderMap::get` with a lowercase header name. As http's
/// documentation and source show, it gives the first value stored under
/// that name, or `None` when there is none; the map's contents are named
/// `spec_headers`, the value's bytes `spec_value_bytes`.
#[verifier::external_body]
pub(crate) fn header_get<'a>(headers: &'a HeaderMap, name: &str) -> (rtn: Option<&'a HeaderValue>)
    requires
        is_lower_header_name(name@),
    ensures
        match rtn {
            Some(v) => spec_headers(*headers).dom().contains(name@) && spec_value_bytes(*v) == spec_headers(
                *headers,
            )[name@],
            None => !spec_headers(*headers).dom().contains(name@),
        },
{
    headers.get(name)
}

/// Calls `HeaderValue::to_str`. As http's source shows, it succeeds exactly
/// when every byte of the value is visible ascii or the tab, and the text
/// is then those bytes.
#[verifier::external_body]
pub(crate) fn header_to_str(value: &HeaderValue) -> (rtn: Result<&str, ToStrError>)
    ensures
        rtn is Ok <==> forall|i: int|
            0 <= i < spec_value_bytes(*value).len() ==> is_visible_ascii(#[trigger] spec_value_bytes(*value)[i]),
        rtn matches Ok(t) ==> t@ == spec_ascii_text(spec_value_bytes(*value)),
{
    value.to_str()
}

/// a media type of the `accept` header: its type and subtype
#[derive(Debug, Clone, PartialEq, Eq)]
pub struct MediaType {
    pub type_: String,
    pub subtype: String,
}

/// what the mime crate makes of a text: `None` when it is not a media type,
/// else the type and the subtype as `Mime::type_` and `Mime::subtype` give
/// them
pub uninterp spec fn spec_mime_parse(s: Seq<char>) -> Option<(Seq<char>, Seq<char>)>;

/// Calls `mime::Mime::from_str` and reads the type and subtype of what it
/// parsed. The result is named `spec_mime_parse` of the text; mime's grammar
/// is not written out here.
#[verifier::external_body]
pub(crate) fn parse_media_type(s: &str) -> (rtn: Option<MediaType>)
    ensures
        match rtn {
            Some(m) => spec_mime_parse(s@) == Some((m.type_@, m.subtype@)),
            None => spec_mime_parse(s@) is None,
        },
{
    match s.parse::<mime::Mime>() {
        Ok(m) => Some(MediaType { type_: m.type_().as_str().to_string(), subtype: m.subtype().as_str().to_string() }),
        Err(_) => None,
    }
}

/// the media type that a piece of the `accept` header stands for, if any:
/// the piece is trimmed and parsed
pub open spec fn spec_piece_media(piece: Seq<char>) -> Option<(Seq<char>, Seq<char>)> {
    spec_mime_parse(spec_trim(piece))
}

/// the first piece at or after `from` that parses as a media type
pub open spec fn spec_first_media(pieces: Seq<Seq<char>>, from: int) -> Option<int>
    decreases pieces.len() - from,
{
    if from >= pieces.len() || from < 0 {
        None
    } else if spec_piece_media(pieces[from]) is Some {
        Some(from)
    } else {
        spec_first_media(pieces, from + 1)
    }
}

/// whether a media type is `text/html`, by mime's case-insensitive
/// comparison of names
pub open spec fn spec_is_html(m: (Seq<char>, Seq<char>)) -> bool {
    spec_ascii_lowercase(m.0) == "text"@ && spec_ascii_lowercase(m.1) == "html"@
}

/// whether some piece of an `accept` header parses as `text/html`
pub open spec fn spec_accepts_html(pieces: Seq<Seq<char>>) -> bool {
    exists|i: int|
        0 <= i < pieces.len() && #[trigger] spec_piece_media(pieces[i]) is Some
            && spec_is_html(spec_piece_media(pieces[i]).unwrap())
}

/// the media types of an `accept` header, one after another; pieces that do
/// not parse are passed over
pub struct AcceptIter {
    pieces: Vec<String>,
    pos: usize,
}

impl AcceptIter {
    /// the pieces of the header, split at commas
    pub closed spec fn pieces(&self) -> Seq<Seq<char>> {
        string_views(self.pieces@)
    }

    /// how many pieces have been read
    pub closed spec fn pos(&self) -> int {
        self.pos as int
    }

    /// the position never passes the end
    pub closed spec fn wf(&self) -> bool {
        self.pos <= self.pieces@.len()
    }

    /// the media types of an `accept` header's text
    pub fn from_value(accept: &str) -> (rtn: Self)
        ensures
            rtn.wf(),
            rtn.pieces() == spec_split(accept@, ','),
            rtn.pos() == 0,
    {
        AcceptIter { pieces: split_char(accept, ','), pos: 0 }
    }

    /// the media types of the `accept` header of a request: `Ok(None)` when
    /// there is none, an error when it is not visible ascii
    pub fn from_headers(headers: &HeaderMap) -> (rtn: Result<Option<Self>, ToStrError>)
        ensures
            match spec_header_text(spec_headers(*headers), "accept"@) {
                None => rtn matches Ok(None),
                Some(None) => rtn is Err,
                Some(Some(t)) => (rtn matches Ok(Some(it)) && it.wf() && it.pos() == 0 && it.pieces() == spec_split(
                    t,
                    ',',
                )),
            },
    {
        proof {
            reveal_strlit("accept");
        }
        match header_get(headers, "accept") {
            None => Ok(None),
            Some(value) => match header_to_str(value) {
                Ok(text) => Ok(Some(Self::from_value(text))),
                Err(err) => Err(err),
            },
        }
    }

    /// the next piece that parses as a media type, or `None` once the
    /// pieces run out
    pub fn next(&mut self) -> (rtn: Option<MediaType>)
        requires
            old(self).wf(),
        ensures
            final(self).wf(),
            final(self).pieces() == old(self).pieces(),
            match spec_first_media(old(self).pieces(), old(self).pos()) {
                Some(i) => final(self).pos() == i + 1 && (rtn matches Some(m) && spec_piece_media(
                    old(self).pieces()[i],
                ) == Some((m.type_@, m.subtype@))),
                None => final(self).pos() == old(self).pieces().len() && rtn is None,
            },
    {
        let n = self.pieces.len();
        while self.pos < n
            invariant
                n == self.pieces@.len(),
                self.pos <= n,
                self.pieces() == old(self).pieces(),
                old(self).pos() <= self.pos(),
                spec_first_media(old(self).pieces(), old(self).pos()) == spec_first_media(
                    self.pieces(),
                    self.pos(),
                ),
            decreases n - self.pos,
        {
            let i = self.pos;
            let piece = trim(self.pieces[i].as_str());
            let parsed = parse_media_type(piece);
            self.pos = i + 1;
            if parsed.is_some() {
                return parsed;
            }
        }
        None
    }
}

/// whether the pieces of an `accept` header include `text/html`
pub fn accepts_html(accept: &str) -> (rtn: bool)
    ensures
        rtn == spec_accepts_html(spec_split(accept@, ',')),
{
    let mut iter = AcceptIter::from_value(accept);
    let ghost pieces = iter.pieces();
    loop
        invariant
            iter.wf(),
            iter.pieces() == pieces,
            pieces == spec_split(accept@, ','),
            forall|j: int|
                0 <= j < iter.pos() && #[trigger] spec_piece_media(pieces[j]) is Some
                    ==> !spec_is_html(spec_piece_media(pieces[j]).unwrap()),
        decreases pieces.len() - iter.pos(),
    {
        let ghost from = iter.pos();
        proof {
            lemma_first_media_skips(pieces, from);
        }
        match iter.next() {
            None => {
                return false;
            },
            Some(m) => {
                let t = ascii_lowercase(m.type_.as_str());
                let s = ascii_lowercase(m.subtype.as_str());
                if str_eq(t.as_str(), "text") && str_eq(s.as_str(), "html") {
                    return true;
                }
            },
        }
    }
}

/// the first media piece found from `from` lies at or after it, and every
/// piece before it fails to parse
pub proof fn lemma_first_media_skips(pieces: Seq<Seq<char>>, from: int)
    requires
        0 <= from,
    ensures
        match spec_first_media(pieces, from) {
            Some(i) => from <= i < pieces.len() && spec_piece_media(pieces[i]) is Some && forall|
                j: int,
            |
                from <= j < i ==> #[trigger] spec_piece_media(pieces[j]) is None,
            None => forall|j: int|
                from <= j < pieces.len() ==> #[trigger] spec_piece_media(pieces[j]) is None,
        },
    decreases pieces.len() - from,
{
    if from < pieces.len() && spec_piece_media(pieces[from]) is None {
        lemma_first_media_skips(pieces, from + 1);
    }
}

/// whether a request's `accept` header asks for `text/html`; an error when
/// the header is not visible ascii
pub fn is_accepting_html(headers: &HeaderMap) -> (rtn: Result<bool, ToStrError>)
    ensures
        match spec_header_text(spec_headers(*headers), "accept"@) {
            None => rtn matches Ok(false),
            Some(None) => rtn is Err,
            Some(Some(t)) => (rtn matches Ok(b) && b == spec_accepts_html(spec_split(t, ','))),
        },
{
    proof {
        reveal_strlit("accept");
    }
    match header_get(headers, "accept") {
        None => Ok(false),
        Some(value) => match header_to_str(value) {
            Ok(text) => Ok(accepts_html(text)),
            Err(err) => Err(err),
        },
    }
}

/// what http makes of a text as a uri: `None` when it is not one, else its
/// path and query as `Uri::path_and_query` gives them
pub uninterp spec fn spec_uri_path_and_query(s: Seq<char>) -> Option<Option<Seq<char>>>;

/// Calls `Uri::try_from` on a text and reads `path_and_query` of what it
/// parsed. The result is named `spec_uri_path_and_query` of the text; the
/// uri grammar is not written out here.
#[verifier::external_body]
fn uri_path_and_query(s: &str) -> (rtn: Option<Option<String>>)
    ensures
        match rtn {
            None => spec_uri_path_and_query(s@) is None,
            Some(None) => spec_uri_path_and_query(s@) == Some(None::<Seq<char>>),
            Some(Some(pq)) => spec_uri_path_and_query(s@) == Some(Some(pq@)),
        },
{
    match axum::http::Uri::try_from(s) {
        Ok(uri) => Some(uri.path_and_query().map(|pq| pq.as_str().to_string())),
        Err(_) => None,
    }
}

/// whether a byte is kept as it is by url encoding: an ascii letter or
/// digit, `-`, `.`, `_` or `~`
pub open spec fn is_url_unreserved(b: u8) -> bool {
    ||| 48 <= b <= 57
    ||| 65 <= b <= 90
    ||| 97 <= b <= 122
    ||| b == 45 || b == 46 || b == 95 || b == 126
}

/// the upper-case hex digit of a number below sixteen
pub open spec fn spec_upper_hex(d: u8) -> char {
    if d < 10 {
        (48 + d) as char
    } else {
        (55 + d) as char
    }
}

/// a byte url encoded: kept when unreserved, else `%` and its two hex digits
pub open spec fn spec_url_encode_byte(b: u8) -> Seq<char> {
    if is_url_unreserved(b) {
        seq![b as char]
    } else {
        seq!['%', spec_upper_hex(b / 16), spec_upper_hex(b % 16)]
    }
}

/// bytes url encoded, one after the other
pub open spec fn spec_url_encode_bytes(bytes: Seq<u8>) -> Seq<char>
    decreases bytes.len(),
{
    if bytes.len() == 0 {
        Seq::empty()
    } else {
        spec_url_encode_bytes(bytes.drop_last()) + spec_url_encode_byte(bytes.last())
    }
}

/// what `urlencoding::encode` makes of a text: each byte of its utf-8 that
/// is not an ascii letter, digit, `-`, `.`, `_` or `~` written as `%` and two
/// upper-case hex digits
pub open spec fn spec_url_encode(s: Seq<char>) -> Seq<char> {
    spec_url_encode_bytes(encode_utf8(s))
}

/// Calls `urlencoding::encode`. As its source shows, it percent-encodes
/// every utf-8 byte of the text but the unreserved ones, with upper-case
/// hex digits, as `spec_url_encode` states.
#[verifier::external_body]
pub(crate) fn url_encode(s: &str) -> (rtn: String)
    ensures
        rtn@ == spec_url_encode(s@),
{
    urlencoding::encode(s).into_owned()
}

/// what `urlencoding::decode` makes of a text: `None` when the bytes that
/// the `%` escapes stand for are not utf-8, else the decoded text
pub uninterp spec fn spec_url_decode(s: Seq<char>) -> Option<Seq<char>>;

/// Calls `urlencoding::decode`. The result is named `spec_url_decode` of
/// the text; the error is dropped.
#[verifier::external_body]
pub(crate) fn url_decode(s: &str) -> (rtn: Option<String>)
    ensures
        match rtn {
            Some(d) => spec_url_decode(s@) == Some(d@),
            None => spec_url_decode(s@) is None,
        },
{
    match urlencoding::decode(s) {
        Ok(decoded) => Some(decoded.into_owned()),
        Err(_) => None,
    }
}

/// the target of the login redirect for an earlier request target: the
/// login page, with the earlier target's path and query encoded as `prev`
/// where it has them
pub open spec fn spec_login_target(maybe_prev: Option<Seq<char>>) -> Seq<char> {
    match maybe_prev {
        None => "/login"@,
        Some(prev) => match spec_uri_path_and_query(prev) {
            Some(Some(pq)) => "/login?prev="@ + spec_url_encode(pq),
            _ => "/login"@,
        },
    }
}

/// the value of the `location` header of a redirect
#[derive(Debug)]
pub struct Location(String);

impl View for Location {
    type V = Seq<char>;

    closed spec fn view(&self) -> Seq<char> {
        self.0@
    }
}

impl Location {
    /// a redirect to the given target
    pub fn to(location: String) -> (rtn: Self)
        ensures
            rtn@ == location@,
    {
        Location(location)
    }

    /// a redirect to the login page that remembers the earlier request
    /// target, which must be a uri
    pub fn login(maybe_prev: Option<&str>) -> (rtn: Self)
        requires
            maybe_prev matches Some(p) ==> spec_uri_path_and_query(p@) is Some,
        ensures
            rtn@ == spec_login_target(
                match maybe_prev {
                    Some(p) => Some(p@),
                    None => None,
                },
            ),
    {
        match maybe_prev {
            None => Location(to_owned_string("/login")),
            Some(prev) => match uri_path_and_query(prev) {
                Some(Some(pq)) => {
                    let encoded = url_encode(pq.as_str());
                    let mut rtn = to_owned_string("/login?prev=");
                    push_str(&mut rtn, encoded.as_str());
                    Location(rtn)
                },
                _ => Location(to_owned_string("/login")),
            },
        }
    }

    /// the login redirect, or `None` when the earlier target is not a uri
    pub fn try_login(maybe_prev: Option<&str>) -> (rtn: Option<Self>)
        ensures
            match maybe_prev {
                Some(p) => match rtn {
                    None => spec_uri_path_and_query(p@) is None,
                    Some(loc) => spec_uri_path_and_query(p@) is Some && loc@ == spec_login_target(
                        Some(p@),
                    ),
                },
                None => rtn matches Some(loc) && loc@ == spec_login_target(None),
            },
    {
        match maybe_prev {
            None => Some(Self::login(None)),
            Some(prev) => match uri_path_and_query(prev) {
                None => None,
                Some(_) => Some(Self::login(Some(prev))),
            },
        }
    }

    /// the header value of the redirect: the target's utf-8 bytes, or an
    /// error when the target holds a character that a header value cannot
    pub fn into_header_value(self) -> (rtn: Result<HeaderValue, InvalidHeaderValue>)
        ensures
            rtn is Ok <==> is_header_value_text(self@),
            rtn matches Ok(v) ==> spec_value_bytes(v) == encode_utf8(self@),
    {
        header_value_from_str(self.0.as_str())
    }
}

} // verus!
