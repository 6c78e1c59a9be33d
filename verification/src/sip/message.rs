//! Requests and responses.

use super::basic::{Method, Version};
use super::header;
use super::header::{CSeq, Field, FieldView, Header, HeaderKind, HeaderView};
use super::status::StatusCode;
use super::uri::{NameAddr, NameAddrView, Uri, UriView, Via, ViaView};
use crate::error;
use crate::error::{Error, ErrorView};
use crate::lists;
use crate::text;
use vstd::prelude::*;
use vstd::string::*;

verus! {

#[derive(Debug)]
pub struct Request {
    pub method: Method,
    pub uri: Uri,
    pub version: Version,
    pub headers: Vec<Header>,
    pub body: Vec<u8>,
}

#[verifier::ext_equal]
pub struct RequestView {
    pub method: Method,
    pub uri: UriView,
    pub version: Version,
    pub headers: Seq<HeaderView>,
    pub body: Seq<u8>,
}

impl DeepView for Request {
    type V = RequestView;

    open spec fn deep_view(&self) -> RequestView {
        RequestView {
            method: self.method,
            uri: self.uri.deep_view(),
            version: self.version,
            headers: self.headers.deep_view(),
            body: self.body@,
        }
    }
}

impl View for Request {
    type V = RequestView;

    open spec fn view(&self) -> RequestView {
        self.deep_view()
    }
}

/// A list of bytes, copied.
pub fn copy_bytes(bytes: &Vec<u8>) -> (r: Vec<u8>)
    ensures
        r@ == bytes@,
{
    let r = bytes.clone();
    assert(r@ == bytes@);
    r
}

impl Clone for Request {
    fn clone(&self) -> (r: Self)
        ensures
            r.deep_view() == self.deep_view(),
    {
        Request {
            method: self.method,
            uri: self.uri.clone(),
            version: self.version,
            headers: header::copy(&self.headers),
            body: copy_bytes(&self.body),
        }
    }
}

#[derive(Debug)]
pub struct Response {
    pub status_code: StatusCode,
    pub version: Version,
    pub headers: Vec<Header>,
    pub body: Vec<u8>,
}

#[verifier::ext_equal]
pub struct ResponseView {
    pub status_code: StatusCode,
    pub version: Version,
    pub headers: Seq<HeaderView>,
    pub body: Seq<u8>,
}

impl DeepView for Response {
    type V = ResponseView;

    open spec fn deep_view(&self) -> ResponseView {
        ResponseView {
            status_code: self.status_code,
            version: self.version,
            headers: self.headers.deep_view(),
            body: self.body@,
        }
    }
}

impl View for Response {
    type V = ResponseView;

    open spec fn view(&self) -> ResponseView {
        self.deep_view()
    }
}

impl Clone for Response {
    fn clone(&self) -> (r: Self)
        ensures
            r.deep_view() == self.deep_view(),
    {
        Response {
            status_code: self.status_code,
            version: self.version,
            headers: header::copy(&self.headers),
            body: copy_bytes(&self.body),
        }
    }
}

/// A `200 OK` without headers and body.
pub open spec fn default_response() -> ResponseView {
    ResponseView {
        status_code: StatusCode::OK,
        version: Version::V2,
        headers: Seq::empty(),
        body: Seq::empty(),
    }
}

impl Default for Response {
    fn default() -> (r: Self)
        ensures
            r@ == default_response(),
    {
        Response {
            status_code: StatusCode::OK,
            version: Version::V2,
            headers: Vec::new(),
            body: Vec::new(),
        }
    }
}

#[derive(Debug)]
pub enum SipMessage {
    Request(Request),
    Response(Response),
}

#[verifier::ext_equal]
pub enum SipMessageView {
    Request(RequestView),
    Response(ResponseView),
}

impl DeepView for SipMessage {
    type V = SipMessageView;

    open spec fn deep_view(&self) -> SipMessageView {
        match self {
            SipMessage::Request(r) => SipMessageView::Request(r.deep_view()),
            SipMessage::Response(r) => SipMessageView::Response(r.deep_view()),
        }
    }
}

impl View for SipMessage {
    type V = SipMessageView;

    open spec fn view(&self) -> SipMessageView {
        self.deep_view()
    }
}

impl Clone for SipMessage {
    fn clone(&self) -> (r: Self)
        ensures
            r.deep_view() == self.deep_view(),
    {
        match self {
            SipMessage::Request(r) => SipMessage::Request(r.clone()),
            SipMessage::Response(r) => SipMessage::Response(r.clone()),
        }
    }
}

/// What an optional header holds: its value, or the error that it is absent or
/// cannot be read.
pub open spec fn required<V>(found: Option<FieldView<V>>, kind: HeaderKind) -> Result<V, ErrorView> {
    match found {
        Some(f) => f.typed(kind),
        None => Err(ErrorView::MissingHeader(kind)),
    }
}

/// The CSeq of a message.
pub open spec fn cseq_of(headers: Seq<HeaderView>) -> Result<CSeq, ErrorView> {
    required(header::first_cseq(headers), HeaderKind::CSeq)
}

pub open spec fn from_of(headers: Seq<HeaderView>) -> Result<NameAddrView, ErrorView> {
    required(header::first_from(headers), HeaderKind::From)
}

pub open spec fn to_of(headers: Seq<HeaderView>) -> Result<NameAddrView, ErrorView> {
    required(header::first_to(headers), HeaderKind::To)
}

pub open spec fn via_of(headers: Seq<HeaderView>) -> Result<ViaView, ErrorView> {
    required(header::first_via(headers), HeaderKind::Via)
}

pub open spec fn call_id_of(headers: Seq<HeaderView>) -> Result<Seq<char>, ErrorView> {
    match header::first_call_id(headers) {
        Some(id) => Ok(id),
        None => Err(ErrorView::MissingHeader(HeaderKind::CallId)),
    }
}

/// The tag of the To header, or `None` when it has none.
pub open spec fn to_tag_of(headers: Seq<HeaderView>) -> Result<Option<Seq<char>>, ErrorView> {
    match to_of(headers) {
        Ok(to) => Ok(to.tag()),
        Err(e) => Err(e),
    }
}

/// The address of the first Contact, where every Contact can be read; `None`
/// when there is no Contact.
pub open spec fn contact_of(headers: Seq<HeaderView>) -> Result<Option<NameAddrView>, ErrorView> {
    if forall|i: int|
        0 <= i < headers.len() ==> !(#[trigger] headers[i] matches HeaderView::Contact(
            FieldView::Malformed(_),
        )) {
        match header::first_contact(headers) {
            Some(FieldView::Typed(c)) => Ok(Some(c)),
            _ => Ok(None),
        }
    } else {
        Err(ErrorView::MalformedHeader(HeaderKind::Contact))
    }
}

pub open spec fn as_record_route(h: HeaderView) -> Option<FieldView<NameAddrView>> {
    match h {
        HeaderView::RecordRoute(f) => Some(f),
        _ => None,
    }
}

/// The Record-Route values, in order.
pub open spec fn record_routes(headers: Seq<HeaderView>) -> Seq<FieldView<NameAddrView>> {
    lists::all_of(headers, |h: HeaderView| as_record_route(h))
}

/// The identifier that the sender of a message gives itself.
pub open spec fn peer_uuid_of(headers: Seq<HeaderView>) -> Option<Seq<char>> {
    match header::first_session_id(headers) {
        Some(sid) => sid.local_uuid(),
        None => None,
    }
}

pub fn cseq(headers: &Vec<Header>) -> (r: Result<CSeq, Error>)
    ensures
        error::result_view(r) == cseq_of(headers.deep_view()),
{
    match header::find_cseq(headers) {
        Some(Field::Typed(c)) => Ok(c),
        Some(Field::Malformed(_)) => Err(Error::MalformedHeader(HeaderKind::CSeq)),
        None => Err(Error::MissingHeader(HeaderKind::CSeq)),
    }
}

pub fn from_addr(headers: &Vec<Header>) -> (r: Result<NameAddr, Error>)
    ensures
        error::result_view(r) == from_of(headers.deep_view()),
{
    match header::find_from(headers) {
        Some(Field::Typed(c)) => Ok(c),
        Some(Field::Malformed(_)) => Err(Error::MalformedHeader(HeaderKind::From)),
        None => Err(Error::MissingHeader(HeaderKind::From)),
    }
}

pub fn to_addr(headers: &Vec<Header>) -> (r: Result<NameAddr, Error>)
    ensures
        error::result_view(r) == to_of(headers.deep_view()),
{
    match header::find_to(headers) {
        Some(Field::Typed(c)) => Ok(c),
        Some(Field::Malformed(_)) => Err(Error::MalformedHeader(HeaderKind::To)),
        None => Err(Error::MissingHeader(HeaderKind::To)),
    }
}

pub fn top_via(headers: &Vec<Header>) -> (r: Result<Via, Error>)
    ensures
        error::result_view(r) == via_of(headers.deep_view()),
{
    match header::find_via(headers) {
        Some(Field::Typed(c)) => Ok(c),
        Some(Field::Malformed(_)) => Err(Error::MalformedHeader(HeaderKind::Via)),
        None => Err(Error::MissingHeader(HeaderKind::Via)),
    }
}

pub fn call_id(headers: &Vec<Header>) -> (r: Result<String, Error>)
    ensures
        error::result_view(r) == call_id_of(headers.deep_view()),
{
    match header::find_call_id(headers) {
        Some(id) => Ok(id),
        None => Err(Error::MissingHeader(HeaderKind::CallId)),
    }
}

pub fn to_tag(headers: &Vec<Header>) -> (r: Result<Option<String>, Error>)
    ensures
        error::result_view(r) == to_tag_of(headers.deep_view()),
{
    match to_addr(headers) {
        Ok(to) => Ok(to.tag()),
        Err(e) => Err(e),
    }
}

pub fn contact(headers: &Vec<Header>) -> (r: Result<Option<NameAddr>, Error>)
    ensures
        error::result_view(r) == contact_of(headers.deep_view()),
{
    let mut i: usize = 0;
    while i < headers.len()
        invariant
            i <= headers.len(),
            forall|j: int|
                0 <= j < i ==> !(#[trigger] headers.deep_view()[j] matches HeaderView::Contact(
                    FieldView::Malformed(_),
                )),
        decreases headers.len() - i,
    {
        if let Header::Contact(Field::Malformed(_)) = &headers[i] {
            assert(headers.deep_view()[i as int] matches HeaderView::Contact(
                FieldView::Malformed(_),
            ));
            return Err(Error::MalformedHeader(HeaderKind::Contact));
        }
        i = i + 1;
    }
    match header::find_contact(headers) {
        Some(Field::Typed(c)) => Ok(Some(c)),
        _ => Ok(None),
    }
}

pub fn list_record_routes(headers: &Vec<Header>) -> (r: Vec<Field<NameAddr>>)
    ensures
        r.deep_view() == record_routes(headers.deep_view()),
{
    let mut r: Vec<Field<NameAddr>> = Vec::new();
    let mut i: usize = 0;
    while i < headers.len()
        invariant
            i <= headers.len(),
            r.deep_view() == record_routes(headers.deep_view().take(i as int)),
        decreases headers.len() - i,
    {
        proof {
            lists::lemma_all_of_step(
                headers.deep_view(),
                i as int,
                |h: HeaderView| as_record_route(h),
            );
        }
        if let Header::RecordRoute(f) = &headers[i] {
            let ghost before = r.deep_view();
            let f = f.clone();
            r.push(f);
            assert(r.deep_view() == before.push(f.deep_view()));
        }
        i = i + 1;
    }
    assert(headers.deep_view().take(i as int) == headers.deep_view());
    r
}

pub fn peer_uuid(headers: &Vec<Header>) -> (r: Option<String>)
    ensures
        r.deep_view() == peer_uuid_of(headers.deep_view()),
{
    match header::find_session_id(headers) {
        Some(sid) => sid.local_uuid(),
        None => None,
    }
}

impl RequestView {
    /// Where the request is to go: to its first Route, if it can be read, else
    /// to its URI.
    pub open spec fn destination(self) -> UriView {
        match header::first_route(self.headers) {
            Some(FieldView::Typed(r)) => r.uri,
            _ => self.uri,
        }
    }
}

impl Request {
    pub fn destination(&self) -> (r: Uri)
        ensures
            r@ == self@.destination(),
    {
        match header::find_route(&self.headers) {
            Some(Field::Typed(r)) => r.uri,
            _ => self.uri.clone(),
        }
    }
}

/// `token` is one of the values that commas separate in `s`, up to the case of
/// letters and the white space around the value.
pub open spec fn lists_token(s: Seq<char>, token: Seq<char>) -> bool {
    exists|from: int, to: int| #[trigger] token_between(s, token, from, to)
}

/// `token` is the whole value between two neighbouring commas.
pub open spec fn token_between(s: Seq<char>, token: Seq<char>, from: int, to: int) -> bool {
    &&& 0 <= from <= to <= s.len()
    &&& from == 0 || s[from - 1] == ','
    &&& to == s.len() || s[to] == ','
    &&& forall|k: int| from <= k < to ==> s[k] != ','
    &&& text::same_ignoring_case(text::trimmed(s.subrange(from, to)), token)
}

/// Looks for a value in a list that commas separate.
pub fn has_token(s: &str, token: &str) -> (found: bool)
    ensures
        found == lists_token(s@, token@),
{
    let chars = text::chars_of(s);
    let n: usize = chars.len();
    let mut from: usize = 0;
    loop
        invariant
            n == chars.len(),
            chars@ == s@,
            from <= n,
            from == 0 || s@[from - 1] == ',',
            forall|f: int, t: int| f < from ==> !#[trigger] token_between(s@, token@, f, t),
        decreases n - from,
    {
        let mut to: usize = from;
        while to < n && chars[to] != ','
            invariant
                n == chars.len(),
                from <= to <= n,
                forall|k: int| from <= k < to ==> chars@[k] != ',',
            decreases n - to,
        {
            to = to + 1;
        }
        let part = text::part_of(&chars, from, to);
        let word = text::text_of(&text::trim(&part));
        if text::eq_ignore_ascii_case(word.as_str(), token) {
            assert(token_between(s@, token@, from as int, to as int));
            return true;
        }
        assert forall|f: int, t: int| f <= to implies !#[trigger] token_between(s@, token@, f, t) by {
            if f >= from && token_between(s@, token@, f, t) {
                if f > from {
                    assert(s@[f - 1] == ',');
                }
                assert(f == from);
                if t < to {
                    assert(s@[t] == ',');
                }
                if t > to {
                    assert(s@[to as int] != ',');
                }
                assert(t == to);
            }
        }
        if to == n {
            assert forall|f: int, t: int| !#[trigger] token_between(s@, token@, f, t) by {}
            return false;
        }
        from = to + 1;
    }
}

/// A Supported or Require header lists `token`.
pub open spec fn header_lists(h: HeaderView, kind: HeaderKind, token: Seq<char>) -> bool {
    h.kind() == kind && match h {
        HeaderView::Supported(v) => lists_token(v, token),
        HeaderView::Require(v) => lists_token(v, token),
        _ => false,
    }
}

/// One of the headers of `kind` lists `token`.
pub open spec fn headers_list(headers: Seq<HeaderView>, kind: HeaderKind, token: Seq<char>) -> bool {
    exists|i: int| 0 <= i < headers.len() && #[trigger] header_lists(headers[i], kind, token)
}

/// Looks for a value in the Supported or Require headers.
pub fn header_contains_token(headers: &Vec<Header>, kind: HeaderKind, token: &str) -> (found: bool)
    ensures
        found == headers_list(headers.deep_view(), kind, token@),
{
    let mut i: usize = 0;
    while i < headers.len()
        invariant
            i <= headers.len(),
            forall|j: int|
                0 <= j < i ==> !#[trigger] header_lists(headers.deep_view()[j], kind, token@),
        decreases headers.len() - i,
    {
        let found = headers[i].kind() == kind && match &headers[i] {
            Header::Supported(v) => has_token(v.as_str(), token),
            Header::Require(v) => has_token(v.as_str(), token),
            _ => false,
        };
        assert(found == header_lists(headers.deep_view()[i as int], kind, token@));
        if found {
            return true;
        }
        i = i + 1;
    }
    false
}

/// `s` holds a response number, a CSeq number and a method.
pub open spec fn is_rack(s: Seq<char>) -> bool {
    match text::first_word(s) {
        Some((rseq, rest)) => text::number_in(rseq, u32::MAX as nat) is Some
            && match text::first_word(rest) {
            Some((cseq, rest)) => text::number_in(cseq, u32::MAX as nat) is Some
                && match text::first_word(rest) {
                Some((method, _)) => Method::is_name(method),
                None => false,
            },
            None => false,
        },
        None => false,
    }
}

/// Tests the value of a RAck header.
pub fn rack_is_valid(s: &str) -> (r: bool)
    ensures
        r == is_rack(s@),
{
    let chars = text::chars_of(s);
    let Some((rseq, rest)) = text::take_word(&chars) else {
        return false;
    };
    if text::parse_number(&rseq, u32::MAX).is_none() {
        return false;
    }
    let Some((cseq, rest)) = text::take_word(&rest) else {
        return false;
    };
    if text::parse_number(&cseq, u32::MAX).is_none() {
        return false;
    }
    let Some((method, _)) = text::take_word(&rest) else {
        return false;
    };
    Method::names_method(text::text_of(&method).as_str())
}

}
