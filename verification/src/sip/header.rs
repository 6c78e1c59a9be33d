//! Headers.

use super::basic::Method;
use super::session_id::{SessionId, SessionIdView};
use super::uri::{NameAddr, NameAddrView, Via, ViaView};
use crate::error::ErrorView;
use crate::lists;
use vstd::prelude::*;

verus! {

/// A header's value: read, or kept as the text that could not be read.
#[derive(Debug)]
pub enum Field<T> {
    Typed(T),
    Malformed(String),
}

#[verifier::ext_equal]
pub enum FieldView<V> {
    Typed(V),
    Malformed(Seq<char>),
}

impl<T: DeepView> DeepView for Field<T> {
    type V = FieldView<T::V>;

    open spec fn deep_view(&self) -> FieldView<T::V> {
        match self {
            Field::Typed(v) => FieldView::Typed(v.deep_view()),
            Field::Malformed(t) => FieldView::Malformed(t@),
        }
    }
}

impl Clone for Field<NameAddr> {
    fn clone(&self) -> (r: Self)
        ensures
            r.deep_view() == self.deep_view(),
    {
        match self {
            Field::Typed(v) => Field::Typed(v.clone()),
            Field::Malformed(t) => Field::Malformed(t.clone()),
        }
    }
}

impl Clone for Field<Via> {
    fn clone(&self) -> (r: Self)
        ensures
            r.deep_view() == self.deep_view(),
    {
        match self {
            Field::Typed(v) => Field::Typed(v.clone()),
            Field::Malformed(t) => Field::Malformed(t.clone()),
        }
    }
}

impl Clone for Field<CSeq> {
    fn clone(&self) -> (r: Self)
        ensures
            r.deep_view() == self.deep_view(),
    {
        match self {
            Field::Typed(v) => Field::Typed(*v),
            Field::Malformed(t) => Field::Malformed(t.clone()),
        }
    }
}

impl<V> FieldView<V> {
    /// The value, or the error that a value of the header `kind` cannot be read.
    pub open spec fn typed(self, kind: HeaderKind) -> Result<V, ErrorView> {
        match self {
            FieldView::Typed(v) => Ok(v),
            FieldView::Malformed(_) => Err(ErrorView::MalformedHeader(kind)),
        }
    }
}

/// The number of a request within its dialog, and its method.
#[derive(Clone, Copy, Debug, PartialEq, Eq, Structural)]
pub struct CSeq {
    pub seq: u32,
    pub method: Method,
}

impl DeepView for CSeq {
    type V = CSeq;

    open spec fn deep_view(&self) -> CSeq {
        *self
    }
}

/// The name of a header, without its value.
#[derive(Clone, Copy, Debug, PartialEq, Eq, Structural)]
pub enum HeaderKind {
    Via,
    From,
    To,
    Contact,
    Route,
    RecordRoute,
    CSeq,
    MaxForwards,
    ContentLength,
    RSeq,
    SessionId,
    CallId,
    ContentType,
    UserAgent,
    Supported,
    Require,
    HistoryInfo,
    Reason,
    RAck,
    Event,
    SubscriptionState,
    ReferTo,
    Authorization,
    ProxyAuthorization,
    Other,
}

/// A header. A line of the wire that holds several values stands as several
/// headers, in order. `RSeq(None)` is an RSeq that is no number.
#[derive(Debug)]
pub enum Header {
    Via(Field<Via>),
    From(Field<NameAddr>),
    To(Field<NameAddr>),
    Contact(Field<NameAddr>),
    Route(Field<NameAddr>),
    RecordRoute(Field<NameAddr>),
    CSeq(Field<CSeq>),
    MaxForwards(u32),
    ContentLength(u32),
    RSeq(Option<u32>),
    SessionId(SessionId),
    CallId(String),
    ContentType(String),
    UserAgent(String),
    Supported(String),
    Require(String),
    HistoryInfo(String),
    Reason(String),
    RAck(String),
    Event(String),
    SubscriptionState(String),
    ReferTo(String),
    Authorization(String),
    ProxyAuthorization(String),
    Other(String, String),
}

#[verifier::ext_equal]
pub enum HeaderView {
    Via(FieldView<ViaView>),
    From(FieldView<NameAddrView>),
    To(FieldView<NameAddrView>),
    Contact(FieldView<NameAddrView>),
    Route(FieldView<NameAddrView>),
    RecordRoute(FieldView<NameAddrView>),
    CSeq(FieldView<CSeq>),
    MaxForwards(u32),
    ContentLength(u32),
    RSeq(Option<u32>),
    SessionId(SessionIdView),
    CallId(Seq<char>),
    ContentType(Seq<char>),
    UserAgent(Seq<char>),
    Supported(Seq<char>),
    Require(Seq<char>),
    HistoryInfo(Seq<char>),
    Reason(Seq<char>),
    RAck(Seq<char>),
    Event(Seq<char>),
    SubscriptionState(Seq<char>),
    ReferTo(Seq<char>),
    Authorization(Seq<char>),
    ProxyAuthorization(Seq<char>),
    Other(Seq<char>, Seq<char>),
}

impl DeepView for Header {
    type V = HeaderView;

    open spec fn deep_view(&self) -> HeaderView {
        match self {
            Header::Via(f) => HeaderView::Via(f.deep_view()),
            Header::From(f) => HeaderView::From(f.deep_view()),
            Header::To(f) => HeaderView::To(f.deep_view()),
            Header::Contact(f) => HeaderView::Contact(f.deep_view()),
            Header::Route(f) => HeaderView::Route(f.deep_view()),
            Header::RecordRoute(f) => HeaderView::RecordRoute(f.deep_view()),
            Header::CSeq(f) => HeaderView::CSeq(f.deep_view()),
            Header::MaxForwards(n) => HeaderView::MaxForwards(*n),
            Header::ContentLength(n) => HeaderView::ContentLength(*n),
            Header::RSeq(n) => HeaderView::RSeq(*n),
            Header::SessionId(s) => HeaderView::SessionId(s.deep_view()),
            Header::CallId(t) => HeaderView::CallId(t@),
            Header::ContentType(t) => HeaderView::ContentType(t@),
            Header::UserAgent(t) => HeaderView::UserAgent(t@),
            Header::Supported(t) => HeaderView::Supported(t@),
            Header::Require(t) => HeaderView::Require(t@),
            Header::HistoryInfo(t) => HeaderView::HistoryInfo(t@),
            Header::Reason(t) => HeaderView::Reason(t@),
            Header::RAck(t) => HeaderView::RAck(t@),
            Header::Event(t) => HeaderView::Event(t@),
            Header::SubscriptionState(t) => HeaderView::SubscriptionState(t@),
            Header::ReferTo(t) => HeaderView::ReferTo(t@),
            Header::Authorization(t) => HeaderView::Authorization(t@),
            Header::ProxyAuthorization(t) => HeaderView::ProxyAuthorization(t@),
            Header::Other(name, value) => HeaderView::Other(name@, value@),
        }
    }
}

impl View for Header {
    type V = HeaderView;

    open spec fn view(&self) -> HeaderView {
        self.deep_view()
    }
}

impl Clone for Header {
    fn clone(&self) -> (r: Self)
        ensures
            r.deep_view() == self.deep_view(),
    {
        match self {
            Header::Via(f) => Header::Via(f.clone()),
            Header::From(f) => Header::From(f.clone()),
            Header::To(f) => Header::To(f.clone()),
            Header::Contact(f) => Header::Contact(f.clone()),
            Header::Route(f) => Header::Route(f.clone()),
            Header::RecordRoute(f) => Header::RecordRoute(f.clone()),
            Header::CSeq(f) => Header::CSeq(f.clone()),
            Header::MaxForwards(n) => Header::MaxForwards(*n),
            Header::ContentLength(n) => Header::ContentLength(*n),
            Header::RSeq(n) => Header::RSeq(*n),
            Header::SessionId(s) => Header::SessionId(s.clone()),
            Header::CallId(t) => Header::CallId(t.clone()),
            Header::ContentType(t) => Header::ContentType(t.clone()),
            Header::UserAgent(t) => Header::UserAgent(t.clone()),
            Header::Supported(t) => Header::Supported(t.clone()),
            Header::Require(t) => Header::Require(t.clone()),
            Header::HistoryInfo(t) => Header::HistoryInfo(t.clone()),
            Header::Reason(t) => Header::Reason(t.clone()),
            Header::RAck(t) => Header::RAck(t.clone()),
            Header::Event(t) => Header::Event(t.clone()),
            Header::SubscriptionState(t) => Header::SubscriptionState(t.clone()),
            Header::ReferTo(t) => Header::ReferTo(t.clone()),
            Header::Authorization(t) => Header::Authorization(t.clone()),
            Header::ProxyAuthorization(t) => Header::ProxyAuthorization(t.clone()),
            Header::Other(name, value) => Header::Other(name.clone(), value.clone()),
        }
    }
}

impl HeaderView {
    pub open spec fn kind(self) -> HeaderKind {
        match self {
            HeaderView::Via(_) => HeaderKind::Via,
            HeaderView::From(_) => HeaderKind::From,
            HeaderView::To(_) => HeaderKind::To,
            HeaderView::Contact(_) => HeaderKind::Contact,
            HeaderView::Route(_) => HeaderKind::Route,
            HeaderView::RecordRoute(_) => HeaderKind::RecordRoute,
            HeaderView::CSeq(_) => HeaderKind::CSeq,
            HeaderView::MaxForwards(_) => HeaderKind::MaxForwards,
            HeaderView::ContentLength(_) => HeaderKind::ContentLength,
            HeaderView::RSeq(_) => HeaderKind::RSeq,
            HeaderView::SessionId(_) => HeaderKind::SessionId,
            HeaderView::CallId(_) => HeaderKind::CallId,
            HeaderView::ContentType(_) => HeaderKind::ContentType,
            HeaderView::UserAgent(_) => HeaderKind::UserAgent,
            HeaderView::Supported(_) => HeaderKind::Supported,
            HeaderView::Require(_) => HeaderKind::Require,
            HeaderView::HistoryInfo(_) => HeaderKind::HistoryInfo,
            HeaderView::Reason(_) => HeaderKind::Reason,
            HeaderView::RAck(_) => HeaderKind::RAck,
            HeaderView::Event(_) => HeaderKind::Event,
            HeaderView::SubscriptionState(_) => HeaderKind::SubscriptionState,
            HeaderView::ReferTo(_) => HeaderKind::ReferTo,
            HeaderView::Authorization(_) => HeaderKind::Authorization,
            HeaderView::ProxyAuthorization(_) => HeaderKind::ProxyAuthorization,
            HeaderView::Other(_, _) => HeaderKind::Other,
        }
    }
}

impl Header {
    pub fn kind(&self) -> (kind: HeaderKind)
        ensures
            kind == self@.kind(),
    {
        match self {
            Header::Via(_) => HeaderKind::Via,
            Header::From(_) => HeaderKind::From,
            Header::To(_) => HeaderKind::To,
            Header::Contact(_) => HeaderKind::Contact,
            Header::Route(_) => HeaderKind::Route,
            Header::RecordRoute(_) => HeaderKind::RecordRoute,
            Header::CSeq(_) => HeaderKind::CSeq,
            Header::MaxForwards(_) => HeaderKind::MaxForwards,
            Header::ContentLength(_) => HeaderKind::ContentLength,
            Header::RSeq(_) => HeaderKind::RSeq,
            Header::SessionId(_) => HeaderKind::SessionId,
            Header::CallId(_) => HeaderKind::CallId,
            Header::ContentType(_) => HeaderKind::ContentType,
            Header::UserAgent(_) => HeaderKind::UserAgent,
            Header::Supported(_) => HeaderKind::Supported,
            Header::Require(_) => HeaderKind::Require,
            Header::HistoryInfo(_) => HeaderKind::HistoryInfo,
            Header::Reason(_) => HeaderKind::Reason,
            Header::RAck(_) => HeaderKind::RAck,
            Header::Event(_) => HeaderKind::Event,
            Header::SubscriptionState(_) => HeaderKind::SubscriptionState,
            Header::ReferTo(_) => HeaderKind::ReferTo,
            Header::Authorization(_) => HeaderKind::Authorization,
            Header::ProxyAuthorization(_) => HeaderKind::ProxyAuthorization,
            Header::Other(_, _) => HeaderKind::Other,
        }
    }
}


/// The headers of other kinds than `kind`.
pub open spec fn without(headers: Seq<HeaderView>, kind: HeaderKind) -> Seq<HeaderView> {
    headers.filter(|h: HeaderView| h.kind() != kind)
}

/// `headers` with `h` behind them, in the place of all headers of its kind.
pub open spec fn unique_pushed(headers: Seq<HeaderView>, h: HeaderView) -> Seq<HeaderView> {
    without(headers, h.kind()).push(h)
}

/// The headers of `kind`.
pub open spec fn of_kind(headers: Seq<HeaderView>, kind: HeaderKind) -> Seq<HeaderView> {
    headers.filter(|h: HeaderView| h.kind() == kind)
}

/// Taking out one kind leaves the others as they are.
pub proof fn lemma_of_kind_without(headers: Seq<HeaderView>, gone: HeaderKind, kind: HeaderKind)
    ensures
        gone == kind ==> of_kind(without(headers, gone), kind) == Seq::<HeaderView>::empty(),
        gone != kind ==> of_kind(without(headers, gone), kind) == of_kind(headers, kind),
    decreases headers.len(),
{
    reveal(Seq::filter);
    if headers.len() > 0 {
        let rest = headers.drop_last();
        lemma_of_kind_without(rest, gone, kind);
        if headers.last().kind() != gone {
            assert(without(headers, gone).drop_last() == without(rest, gone));
        }
    }
}

/// The only header of its kind.
pub proof fn lemma_of_kind_once(headers: Seq<HeaderView>, i: int)
    requires
        0 <= i < headers.len(),
        forall|j: int|
            0 <= j < headers.len() && j != i ==> (#[trigger] headers[j]).kind()
                != headers[i].kind(),
    ensures
        of_kind(headers, headers[i].kind()) == seq![headers[i]],
{
    let h = headers[i];
    let is_kind = |x: HeaderView| x.kind() == h.kind();
    let before = headers.take(i);
    let after = headers.skip(i + 1);
    assert(headers == before.push(h) + after);
    Seq::filter_distributes_over_add(before.push(h), after, is_kind);
    lemma_of_kind_push(before, h, h.kind());
    before.lemma_all_neg_filter_empty(is_kind);
    after.lemma_all_neg_filter_empty(is_kind);
}

pub proof fn lemma_of_kind_push(headers: Seq<HeaderView>, h: HeaderView, kind: HeaderKind)
    ensures
        h.kind() == kind ==> of_kind(headers.push(h), kind) == of_kind(headers, kind).push(h),
        h.kind() != kind ==> of_kind(headers.push(h), kind) == of_kind(headers, kind),
{
    reveal(Seq::filter);
    assert(headers.push(h).drop_last() == headers);
}

pub proof fn lemma_of_kind_add(a: Seq<HeaderView>, b: Seq<HeaderView>, kind: HeaderKind)
    ensures
        of_kind(a + b, kind) == of_kind(a, kind) + of_kind(b, kind),
{
    Seq::filter_distributes_over_add(a, b, |h: HeaderView| h.kind() == kind);
}

pub proof fn lemma_of_kind_none(headers: Seq<HeaderView>, kind: HeaderKind)
    requires
        !has_kind(headers, kind),
    ensures
        of_kind(headers, kind) == Seq::<HeaderView>::empty(),
{
    headers.lemma_all_neg_filter_empty(|h: HeaderView| h.kind() == kind);
}

pub proof fn lemma_of_kind_all(headers: Seq<HeaderView>, kind: HeaderKind)
    requires
        forall|i: int| 0 <= i < headers.len() ==> (#[trigger] headers[i]).kind() == kind,
    ensures
        of_kind(headers, kind) == headers,
{
    lists::lemma_filter_all(headers, |h: HeaderView| h.kind() == kind);
}

/// Adds a header behind the others.
pub fn push(headers: &mut Vec<Header>, h: Header)
    ensures
        final(headers).deep_view() == old(headers).deep_view().push(h@),
{
    headers.push(h);
}

/// Takes the headers of one kind out.
pub fn remove_kind(headers: &mut Vec<Header>, kind: HeaderKind)
    ensures
        final(headers).deep_view() == without(old(headers).deep_view(), kind),
{
    let mut kept: Vec<Header> = Vec::new();
    let mut i: usize = 0;
    let ghost all = headers.deep_view();
    while i < headers.len()
        invariant
            i <= headers.len(),
            all == headers.deep_view(),
            kept.deep_view() == without(all.take(i as int), kind),
        decreases headers.len() - i,
    {
        proof {
            lists::lemma_filter_step(all, i as int, |h: HeaderView| h.kind() != kind);
        }
        if headers[i].kind() != kind {
            push(&mut kept, headers[i].clone());
        }
        i = i + 1;
    }
    assert(all.take(i as int) == all);
    *headers = kept;
}

/// Adds a header behind the others, in the place of all headers of its kind.
pub fn unique_push(headers: &mut Vec<Header>, h: Header)
    ensures
        final(headers).deep_view() == unique_pushed(old(headers).deep_view(), h@),
{
    remove_kind(headers, h.kind());
    push(headers, h);
}

/// Adds several headers behind the others.
pub fn extend(headers: &mut Vec<Header>, more: &Vec<Header>)
    ensures
        final(headers).deep_view() == old(headers).deep_view() + more.deep_view(),
{
    let mut i: usize = 0;
    let ghost before = headers.deep_view();
    while i < more.len()
        invariant
            i <= more.len(),
            headers.deep_view() == before + more.deep_view().take(i as int),
        decreases more.len() - i,
    {
        push(headers, more[i].clone());
        i = i + 1;
    }
}

/// A list of headers, copied.
pub fn copy(headers: &Vec<Header>) -> (r: Vec<Header>)
    ensures
        r.deep_view() == headers.deep_view(),
{
    let mut r: Vec<Header> = Vec::new();
    extend(&mut r, headers);
    r
}

/// Whether a header of `kind` stands among `headers`.
pub open spec fn has_kind(headers: Seq<HeaderView>, kind: HeaderKind) -> bool {
    exists|i: int| 0 <= i < headers.len() && (#[trigger] headers[i]).kind() == kind
}

/// Looks for a header of `kind`.
pub fn contains_kind(headers: &Vec<Header>, kind: HeaderKind) -> (found: bool)
    ensures
        found == has_kind(headers.deep_view(), kind),
{
    let mut i: usize = 0;
    while i < headers.len()
        invariant
            i <= headers.len(),
            forall|j: int| 0 <= j < i ==> (#[trigger] headers.deep_view()[j]).kind() != kind,
        decreases headers.len() - i,
    {
        if headers[i].kind() == kind {
            assert(headers.deep_view()[i as int].kind() == kind);
            return true;
        }
        i = i + 1;
    }
    false
}

pub open spec fn as_via(h: HeaderView) -> Option<FieldView<ViaView>> {
    match h {
        HeaderView::Via(v) => Some(v),
        _ => None,
    }
}

/// The top Via.
pub open spec fn first_via(headers: Seq<HeaderView>) -> Option<FieldView<ViaView>> {
    lists::first_of(headers, |h: HeaderView| as_via(h))
}

/// The top Via.
pub fn find_via(headers: &Vec<Header>) -> (r: Option<Field<Via>>)
    ensures
        r.deep_view() == first_via(headers.deep_view()),
{
    let mut i: usize = 0;
    assert(headers.deep_view().skip(0) == headers.deep_view());
    while i < headers.len()
        invariant
            i <= headers.len(),
            first_via(headers.deep_view().skip(i as int)) == first_via(headers.deep_view()),
        decreases headers.len() - i,
    {
        proof {
            lists::lemma_first_of_step(headers.deep_view(), i as int, |h: HeaderView| as_via(h));
        }
        if let Header::Via(v) = &headers[i] {
            return Some(v.clone());
        }
        i = i + 1;
    }
    None
}

pub open spec fn as_from(h: HeaderView) -> Option<FieldView<NameAddrView>> {
    match h {
        HeaderView::From(v) => Some(v),
        _ => None,
    }
}

/// The first From.
pub open spec fn first_from(headers: Seq<HeaderView>) -> Option<FieldView<NameAddrView>> {
    lists::first_of(headers, |h: HeaderView| as_from(h))
}

/// The first From.
pub fn find_from(headers: &Vec<Header>) -> (r: Option<Field<NameAddr>>)
    ensures
        r.deep_view() == first_from(headers.deep_view()),
{
    let mut i: usize = 0;
    assert(headers.deep_view().skip(0) == headers.deep_view());
    while i < headers.len()
        invariant
            i <= headers.len(),
            first_from(headers.deep_view().skip(i as int)) == first_from(headers.deep_view()),
        decreases headers.len() - i,
    {
        proof {
            lists::lemma_first_of_step(headers.deep_view(), i as int, |h: HeaderView| as_from(h));
        }
        if let Header::From(v) = &headers[i] {
            return Some(v.clone());
        }
        i = i + 1;
    }
    None
}

pub open spec fn as_to(h: HeaderView) -> Option<FieldView<NameAddrView>> {
    match h {
        HeaderView::To(v) => Some(v),
        _ => None,
    }
}

/// The first To.
pub open spec fn first_to(headers: Seq<HeaderView>) -> Option<FieldView<NameAddrView>> {
    lists::first_of(headers, |h: HeaderView| as_to(h))
}

/// The first To.
pub fn find_to(headers: &Vec<Header>) -> (r: Option<Field<NameAddr>>)
    ensures
        r.deep_view() == first_to(headers.deep_view()),
{
    let mut i: usize = 0;
    assert(headers.deep_view().skip(0) == headers.deep_view());
    while i < headers.len()
        invariant
            i <= headers.len(),
            first_to(headers.deep_view().skip(i as int)) == first_to(headers.deep_view()),
        decreases headers.len() - i,
    {
        proof {
            lists::lemma_first_of_step(headers.deep_view(), i as int, |h: HeaderView| as_to(h));
        }
        if let Header::To(v) = &headers[i] {
            return Some(v.clone());
        }
        i = i + 1;
    }
    None
}

pub open spec fn as_contact(h: HeaderView) -> Option<FieldView<NameAddrView>> {
    match h {
        HeaderView::Contact(v) => Some(v),
        _ => None,
    }
}

/// The first Contact.
pub open spec fn first_contact(headers: Seq<HeaderView>) -> Option<FieldView<NameAddrView>> {
    lists::first_of(headers, |h: HeaderView| as_contact(h))
}

/// The first Contact.
pub fn find_contact(headers: &Vec<Header>) -> (r: Option<Field<NameAddr>>)
    ensures
        r.deep_view() == first_contact(headers.deep_view()),
{
    let mut i: usize = 0;
    assert(headers.deep_view().skip(0) == headers.deep_view());
    while i < headers.len()
        invariant
            i <= headers.len(),
            first_contact(headers.deep_view().skip(i as int)) == first_contact(headers.deep_view()),
        decreases headers.len() - i,
    {
        proof {
            lists::lemma_first_of_step(headers.deep_view(), i as int, |h: HeaderView| as_contact(h));
        }
        if let Header::Contact(v) = &headers[i] {
            return Some(v.clone());
        }
        i = i + 1;
    }
    None
}

pub open spec fn as_route(h: HeaderView) -> Option<FieldView<NameAddrView>> {
    match h {
        HeaderView::Route(v) => Some(v),
        _ => None,
    }
}

/// The first Route.
pub open spec fn first_route(headers: Seq<HeaderView>) -> Option<FieldView<NameAddrView>> {
    lists::first_of(headers, |h: HeaderView| as_route(h))
}

/// The first Route.
pub fn find_route(headers: &Vec<Header>) -> (r: Option<Field<NameAddr>>)
    ensures
        r.deep_view() == first_route(headers.deep_view()),
{
    let mut i: usize = 0;
    assert(headers.deep_view().skip(0) == headers.deep_view());
    while i < headers.len()
        invariant
            i <= headers.len(),
            first_route(headers.deep_view().skip(i as int)) == first_route(headers.deep_view()),
        decreases headers.len() - i,
    {
        proof {
            lists::lemma_first_of_step(headers.deep_view(), i as int, |h: HeaderView| as_route(h));
        }
        if let Header::Route(v) = &headers[i] {
            return Some(v.clone());
        }
        i = i + 1;
    }
    None
}

pub open spec fn as_cseq(h: HeaderView) -> Option<FieldView<CSeq>> {
    match h {
        HeaderView::CSeq(v) => Some(v),
        _ => None,
    }
}

/// The first CSeq.
pub open spec fn first_cseq(headers: Seq<HeaderView>) -> Option<FieldView<CSeq>> {
    lists::first_of(headers, |h: HeaderView| as_cseq(h))
}

/// The first CSeq.
pub fn find_cseq(headers: &Vec<Header>) -> (r: Option<Field<CSeq>>)
    ensures
        r.deep_view() == first_cseq(headers.deep_view()),
{
    let mut i: usize = 0;
    assert(headers.deep_view().skip(0) == headers.deep_view());
    while i < headers.len()
        invariant
            i <= headers.len(),
            first_cseq(headers.deep_view().skip(i as int)) == first_cseq(headers.deep_view()),
        decreases headers.len() - i,
    {
        proof {
            lists::lemma_first_of_step(headers.deep_view(), i as int, |h: HeaderView| as_cseq(h));
        }
        if let Header::CSeq(v) = &headers[i] {
            return Some(v.clone());
        }
        i = i + 1;
    }
    None
}

pub open spec fn as_call_id(h: HeaderView) -> Option<Seq<char>> {
    match h {
        HeaderView::CallId(v) => Some(v),
        _ => None,
    }
}

/// The first Call-ID.
pub open spec fn first_call_id(headers: Seq<HeaderView>) -> Option<Seq<char>> {
    lists::first_of(headers, |h: HeaderView| as_call_id(h))
}

/// The first Call-ID.
pub fn find_call_id(headers: &Vec<Header>) -> (r: Option<String>)
    ensures
        r.deep_view() == first_call_id(headers.deep_view()),
{
    let mut i: usize = 0;
    assert(headers.deep_view().skip(0) == headers.deep_view());
    while i < headers.len()
        invariant
            i <= headers.len(),
            first_call_id(headers.deep_view().skip(i as int)) == first_call_id(headers.deep_view()),
        decreases headers.len() - i,
    {
        proof {
            lists::lemma_first_of_step(headers.deep_view(), i as int, |h: HeaderView| as_call_id(h));
        }
        if let Header::CallId(v) = &headers[i] {
            return Some(v.clone());
        }
        i = i + 1;
    }
    None
}

pub open spec fn as_session_id(h: HeaderView) -> Option<SessionIdView> {
    match h {
        HeaderView::SessionId(v) => Some(v),
        _ => None,
    }
}

/// The first Session-ID.
pub open spec fn first_session_id(headers: Seq<HeaderView>) -> Option<SessionIdView> {
    lists::first_of(headers, |h: HeaderView| as_session_id(h))
}

/// The first Session-ID.
pub fn find_session_id(headers: &Vec<Header>) -> (r: Option<SessionId>)
    ensures
        r.deep_view() == first_session_id(headers.deep_view()),
{
    let mut i: usize = 0;
    assert(headers.deep_view().skip(0) == headers.deep_view());
    while i < headers.len()
        invariant
            i <= headers.len(),
            first_session_id(headers.deep_view().skip(i as int)) == first_session_id(headers.deep_view()),
        decreases headers.len() - i,
    {
        proof {
            lists::lemma_first_of_step(headers.deep_view(), i as int, |h: HeaderView| as_session_id(h));
        }
        if let Header::SessionId(v) = &headers[i] {
            return Some(v.clone());
        }
        i = i + 1;
    }
    None
}

pub open spec fn as_rseq(h: HeaderView) -> Option<Option<u32>> {
    match h {
        HeaderView::RSeq(v) => Some(v),
        _ => None,
    }
}

/// The first RSeq.
pub open spec fn first_rseq(headers: Seq<HeaderView>) -> Option<Option<u32>> {
    lists::first_of(headers, |h: HeaderView| as_rseq(h))
}

/// The first RSeq.
pub fn find_rseq(headers: &Vec<Header>) -> (r: Option<Option<u32>>)
    ensures
        r == first_rseq(headers.deep_view()),
{
    let mut i: usize = 0;
    assert(headers.deep_view().skip(0) == headers.deep_view());
    while i < headers.len()
        invariant
            i <= headers.len(),
            first_rseq(headers.deep_view().skip(i as int)) == first_rseq(headers.deep_view()),
        decreases headers.len() - i,
    {
        proof {
            lists::lemma_first_of_step(headers.deep_view(), i as int, |h: HeaderView| as_rseq(h));
        }
        if let Header::RSeq(v) = &headers[i] {
            return Some(*v);
        }
        i = i + 1;
    }
    None
}

pub open spec fn as_rack(h: HeaderView) -> Option<Seq<char>> {
    match h {
        HeaderView::RAck(v) => Some(v),
        _ => None,
    }
}

/// The first RAck.
pub open spec fn first_rack(headers: Seq<HeaderView>) -> Option<Seq<char>> {
    lists::first_of(headers, |h: HeaderView| as_rack(h))
}

/// The first RAck.
pub fn find_rack(headers: &Vec<Header>) -> (r: Option<String>)
    ensures
        r.deep_view() == first_rack(headers.deep_view()),
{
    let mut i: usize = 0;
    assert(headers.deep_view().skip(0) == headers.deep_view());
    while i < headers.len()
        invariant
            i <= headers.len(),
            first_rack(headers.deep_view().skip(i as int)) == first_rack(headers.deep_view()),
        decreases headers.len() - i,
    {
        proof {
            lists::lemma_first_of_step(headers.deep_view(), i as int, |h: HeaderView| as_rack(h));
        }
        if let Header::RAck(v) = &headers[i] {
            return Some(v.clone());
        }
        i = i + 1;
    }
    None
}

/// The place of the first header of `kind`, or the number of headers.
pub open spec fn first_index(headers: Seq<HeaderView>, kind: HeaderKind) -> int
    decreases headers.len(),
{
    if headers.len() == 0 || headers[0].kind() == kind {
        0
    } else {
        1 + first_index(headers.drop_first(), kind)
    }
}

/// The place of the first header of `kind`, or the number of headers.
pub fn index_of(headers: &Vec<Header>, kind: HeaderKind) -> (i: usize)
    ensures
        i == first_index(headers.deep_view(), kind),
        i <= headers.len(),
        i < headers.len() ==> headers.deep_view()[i as int].kind() == kind,
{
    let mut i: usize = 0;
    assert(headers.deep_view().skip(0) == headers.deep_view());
    while i < headers.len() && headers[i].kind() != kind
        invariant
            i <= headers.len(),
            first_index(headers.deep_view(), kind) == i + first_index(
                headers.deep_view().skip(i as int),
                kind,
            ),
        decreases headers.len() - i,
    {
        assert(headers.deep_view().skip(i as int).drop_first() == headers.deep_view().skip(i + 1));
        i = i + 1;
    }
    i
}

/// Puts `h` in the place of the header at `i`.
pub fn replace(headers: &mut Vec<Header>, i: usize, h: Header)
    requires
        i < old(headers).len(),
    ensures
        final(headers).deep_view() == old(headers).deep_view().update(i as int, h@),
{
    headers.set(i, h);
}

/// Where the first header of a kind stands.
pub proof fn lemma_first_index(headers: Seq<HeaderView>, kind: HeaderKind)
    ensures
        ({
            let i = first_index(headers, kind);
            &&& 0 <= i <= headers.len()
            &&& i < headers.len() ==> headers[i].kind() == kind
            &&& forall|j: int| 0 <= j < i ==> (#[trigger] headers[j]).kind() != kind
        }),
    decreases headers.len(),
{
    if headers.len() > 0 && headers[0].kind() != kind {
        let rest = headers.drop_first();
        lemma_first_index(rest, kind);
        let i = first_index(headers, kind);
        assert forall|j: int| 0 <= j < i implies (#[trigger] headers[j]).kind() != kind by {
            if j > 0 {
                assert(rest[j - 1] == headers[j]);
            }
        }
    }
}

}
