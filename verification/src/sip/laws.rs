//! What holds of the parts of a message.

use super::basic::Method;
use super::header;
use super::header::{CSeq, FieldView, HeaderKind, HeaderView};
use super::message;
use super::message::RequestView;
use super::session_id;
use super::session_id::SessionIdView;
use super::status;
use super::status::{StatusCode, StatusCodeKind};
use super::uri;
use super::uri::{NameAddrView, ParamView};
use crate::error::ErrorView;
use crate::lists;
use crate::text;
use vstd::prelude::*;

verus! {

/// The class of a status is told by the first digit of its number.
pub proof fn law_class_is_the_first_digit(s: StatusCode)
    ensures
        s.spec_kind() == StatusCodeKind::Provisional <==> s.spec_code() / 100 == 1,
        s.spec_kind() == StatusCodeKind::Successful <==> s.spec_code() / 100 == 2,
        s.spec_kind() == StatusCodeKind::Redirection <==> s.spec_code() / 100 == 3,
        s.spec_kind() == StatusCodeKind::RequestFailure <==> s.spec_code() / 100 == 4,
        s.spec_kind() == StatusCodeKind::ServerFailure <==> s.spec_code() / 100 == 5,
        s.spec_kind() == StatusCodeKind::GlobalFailure <==> s.spec_code() / 100 == 6,
{
}

/// A number names one status, and the status has that number.
pub proof fn law_number_and_status_agree(code: u16, s: StatusCode)
    ensures
        status::status_of(code).spec_code() == code,
        status::status_of(code) is Other ==> status::status_of(code) == StatusCode::Other(code),
        !(s is Other) ==> status::status_of(s.spec_code()) == s,
{
}

/// The statuses that the library sends and asks for have the numbers that the wire
/// knows them by.
pub proof fn law_numbers_of_statuses()
    ensures
        StatusCode::Trying.spec_code() == 100 && StatusCode::Ringing.spec_code() == 180
            && StatusCode::SessionProgress.spec_code() == 183,
        StatusCode::OK.spec_code() == 200,
        StatusCode::BadRequest.spec_code() == 400 && StatusCode::Unauthorized.spec_code() == 401
            && StatusCode::MethodNotAllowed.spec_code() == 405
            && StatusCode::ProxyAuthenticationRequired.spec_code() == 407
            && StatusCode::RequestTimeout.spec_code() == 408,
        StatusCode::CallTransactionDoesNotExist.spec_code() == 481
            && StatusCode::BusyHere.spec_code() == 486
            && StatusCode::RequestTerminated.spec_code() == 487,
        StatusCode::ServerInternalError.spec_code() == 500
            && StatusCode::NotImplemented.spec_code() == 501
            && StatusCode::ServiceUnavailable.spec_code() == 503,
        StatusCode::Decline.spec_code() == 603,
{
}

/// A tag that is given to an address is its tag, and its only one; the rest of the
/// address stays, in its order.
pub proof fn law_new_tag_is_the_only_one(addr: NameAddrView, tag: Seq<char>)
    ensures
        ({
            let r = addr.with_tag(tag);
            &&& r.tag() == Some(tag)
            &&& r.uri == addr.uri && r.display_name == addr.display_name
            &&& r.params == addr.params.filter(|p: ParamView| !(p is Tag)).push(
                ParamView::Tag(tag),
            )
        }),
{
    let kept = addr.params.filter(|p: ParamView| !(p is Tag));
    let pick = |p: ParamView| uri::as_tag(p);
    let params = addr.with_tag(tag).params;
    assert(uri::without_tags(addr.params) == kept);
    assert(params == kept.push(ParamView::Tag(tag)));
    assert forall|j: int| 0 <= j < kept.len() implies pick(#[trigger] params[j]) is None by {
        addr.params.lemma_filter_pred(|p: ParamView| !(p is Tag), j);
        assert(params[j] == kept[j]);
    }
    lists::law_first_of_is_the_first(params, kept.len() as int, pick);
}

/// A tag that is offered to an address is taken only where it has none.
pub proof fn law_offered_tag_keeps_the_first(addr: NameAddrView, tag: Seq<char>)
    ensures
        addr.tag() is Some ==> addr.or_tag(tag) == addr,
        addr.tag() is None ==> addr.or_tag(tag) == (NameAddrView {
            params: addr.params.push(ParamView::Tag(tag)),
            ..addr
        }) && addr.or_tag(tag).tag() == Some(tag),
{
    if addr.tag() is None {
        let pick = |p: ParamView| uri::as_tag(p);
        let params = addr.params.push(ParamView::Tag(tag));
        let i = lists::lemma_first_of_found(addr.params, pick);
        assert forall|j: int| 0 <= j < addr.params.len() implies pick(#[trigger] params[j]) is None by {
            assert(params[j] == addr.params[j]);
        }
        lists::law_first_of_is_the_first(params, addr.params.len() as int, pick);
    }
}

/// What is read from a list of parameters or headers is the first value of its
/// kind.
pub proof fn law_first_values_are_read(
    params: Seq<ParamView>,
    headers: Seq<HeaderView>,
    i: int,
)
    ensures
        0 <= i < params.len() && (forall|j: int| 0 <= j < i ==> !(#[trigger] params[j] is Tag)) ==> (
        params[i] matches ParamView::Tag(t) ==> uri::tag_in(params) == Some(t)),
        0 <= i < params.len() && (forall|j: int| 0 <= j < i ==> !(#[trigger] params[j] is Branch))
            ==> (params[i] matches ParamView::Branch(b) ==> uri::branch_in(params) == Some(b)),
        0 <= i < params.len() && (forall|j: int|
            0 <= j < i ==> !(#[trigger] params[j] is Transport)) ==> (
        params[i] matches ParamView::Transport(t) ==> uri::transport_in(params) == Some(t)),
        0 <= i < headers.len() && (forall|j: int| 0 <= j < i ==> !(#[trigger] headers[j] is Via))
            ==> (headers[i] matches HeaderView::Via(f) ==> header::first_via(headers) == Some(f)),
        0 <= i < headers.len() && (forall|j: int| 0 <= j < i ==> !(#[trigger] headers[j] is From))
            ==> (headers[i] matches HeaderView::From(f) ==> header::first_from(headers) == Some(
            f,
        )),
        0 <= i < headers.len() && (forall|j: int| 0 <= j < i ==> !(#[trigger] headers[j] is To))
            ==> (headers[i] matches HeaderView::To(f) ==> header::first_to(headers) == Some(f)),
        0 <= i < headers.len() && (forall|j: int|
            0 <= j < i ==> !(#[trigger] headers[j] is Contact)) ==> (
        headers[i] matches HeaderView::Contact(f) ==> header::first_contact(headers) == Some(f)),
        0 <= i < headers.len() && (forall|j: int| 0 <= j < i ==> !(#[trigger] headers[j] is Route))
            ==> (headers[i] matches HeaderView::Route(f) ==> header::first_route(headers) == Some(
            f,
        )),
        0 <= i < headers.len() && (forall|j: int| 0 <= j < i ==> !(#[trigger] headers[j] is CSeq))
            ==> (headers[i] matches HeaderView::CSeq(f) ==> header::first_cseq(headers) == Some(
            f,
        )),
        0 <= i < headers.len() && (forall|j: int|
            0 <= j < i ==> !(#[trigger] headers[j] is CallId)) ==> (
        headers[i] matches HeaderView::CallId(f) ==> header::first_call_id(headers) == Some(f)),
{
    if 0 <= i < params.len() {
        if (forall|j: int| 0 <= j < i ==> !(#[trigger] params[j] is Tag)) && params[i] is Tag {
            lists::law_first_of_is_the_first(params, i, |p: ParamView| uri::as_tag(p));
        }
        if (forall|j: int| 0 <= j < i ==> !(#[trigger] params[j] is Branch)) && params[i]
            is Branch {
            lists::law_first_of_is_the_first(params, i, |p: ParamView| uri::as_branch(p));
        }
        if (forall|j: int| 0 <= j < i ==> !(#[trigger] params[j] is Transport)) && params[i]
            is Transport {
            lists::law_first_of_is_the_first(params, i, |p: ParamView| uri::as_transport(p));
        }
    }
    if 0 <= i < headers.len() {
        if (forall|j: int| 0 <= j < i ==> !(#[trigger] headers[j] is Via)) && headers[i] is Via {
            lists::law_first_of_is_the_first(headers, i, |h: HeaderView| header::as_via(h));
        }
        if (forall|j: int| 0 <= j < i ==> !(#[trigger] headers[j] is From)) && headers[i] is From {
            lists::law_first_of_is_the_first(headers, i, |h: HeaderView| header::as_from(h));
        }
        if (forall|j: int| 0 <= j < i ==> !(#[trigger] headers[j] is To)) && headers[i] is To {
            lists::law_first_of_is_the_first(headers, i, |h: HeaderView| header::as_to(h));
        }
        if (forall|j: int| 0 <= j < i ==> !(#[trigger] headers[j] is Contact)) && headers[i]
            is Contact {
            lists::law_first_of_is_the_first(headers, i, |h: HeaderView| header::as_contact(h));
        }
        if (forall|j: int| 0 <= j < i ==> !(#[trigger] headers[j] is Route)) && headers[i]
            is Route {
            lists::law_first_of_is_the_first(headers, i, |h: HeaderView| header::as_route(h));
        }
        if (forall|j: int| 0 <= j < i ==> !(#[trigger] headers[j] is CSeq)) && headers[i] is CSeq {
            lists::law_first_of_is_the_first(headers, i, |h: HeaderView| header::as_cseq(h));
        }
        if (forall|j: int| 0 <= j < i ==> !(#[trigger] headers[j] is CallId)) && headers[i]
            is CallId {
            lists::law_first_of_is_the_first(headers, i, |h: HeaderView| header::as_call_id(h));
        }
    }
}

/// A request goes to its first Route, or else to its URI.
pub proof fn law_request_goes_to_its_first_route(req: RequestView, route: NameAddrView)
    ensures
        header::first_route(req.headers) == Some(FieldView::Typed(route)) ==> req.destination()
            == route.uri,
        header::first_route(req.headers) is None ==> req.destination() == req.uri,
{
}

/// The Record-Routes of a message are all of them, in their order.
pub proof fn law_record_routes_are_in_order(headers: Seq<HeaderView>)
    ensures
        ({
            let found = message::record_routes(headers);
            let all = header::of_kind(headers, HeaderKind::RecordRoute);
            found.len() == all.len() && forall|i: int|
                0 <= i < all.len() ==> #[trigger] all[i] == HeaderView::RecordRoute(found[i])
        }),
    decreases headers.len(),
{
    reveal(Seq::filter);
    if headers.len() > 0 {
        law_record_routes_are_in_order(headers.drop_last());
    }
}

/// An identifier is 32 hexadecimal digits that are not all zero; its sender's comes
/// first, and the peer's second.
pub proof fn law_identifiers_are_read(s: SessionIdView, peer: Seq<char>)
    requires
        s.remote == Some(peer),
    ensures
        s.local_uuid() matches Some(u) ==> u == s.local,
        s.remote_uuid() matches Some(u) ==> u == peer,
        s.local_uuid() is Some <==> session_id::is_uuid(s.local) && exists|i: int|
            0 <= i < 32 && #[trigger] s.local[i] != '0',
        s.remote_uuid() is Some <==> session_id::is_uuid(peer) && exists|i: int|
            0 <= i < 32 && #[trigger] peer[i] != '0',
{
    lemma_nil(s.local);
    lemma_nil(peer);
}

proof fn lemma_nil(u: Seq<char>)
    requires
        true,
    ensures
        session_id::is_uuid(u) ==> (u != session_id::nil_uuid() <==> exists|i: int|
            0 <= i < 32 && #[trigger] u[i] != '0'),
{
    reveal_strlit("00000000000000000000000000000000");
    let nil = session_id::nil_uuid();
    assert(forall|i: int| 0 <= i < 32 ==> #[trigger] nil[i] == '0');
    if session_id::is_uuid(u) && forall|i: int| 0 <= i < 32 ==> #[trigger] u[i] == '0' {
        assert(u =~= nil);
    }
}

/// A list names what its parts name: a value is one of two lists that a comma joins
/// exactly if it is one of either; a list without a comma is one value.
pub proof fn law_lists_name_their_parts(a: Seq<char>, b: Seq<char>, token: Seq<char>)
    ensures
        message::lists_token(a + seq![','] + b, token) <==> message::lists_token(a, token)
            || message::lists_token(b, token),
        (forall|i: int| 0 <= i < a.len() ==> #[trigger] a[i] != ',') ==> (message::lists_token(
            a,
            token,
        ) <==> text::same_ignoring_case(text::trimmed(a), token)),
{
    let s = a + seq![','] + b;
    let n = a.len() as int;
    assert(s[n] == ',');
    if message::lists_token(s, token) {
        let (from, to) = choose|from: int, to: int| #[trigger]
            message::token_between(s, token, from, to);
        if to <= n {
            assert(s.subrange(from, to) == a.subrange(from, to));
            assert forall|k: int| from <= k < to implies a[k] != ',' by {
                assert(s[k] == a[k]);
            }
            if from > 0 {
                assert(s[from - 1] == a[from - 1]);
            }
            if to < n {
                assert(s[to] == a[to]);
            }
            assert(message::token_between(a, token, from, to));
        } else if from > n {
            let f = from - n - 1;
            let t = to - n - 1;
            assert(s.subrange(from, to) == b.subrange(f, t));
            assert forall|k: int| f <= k < t implies b[k] != ',' by {
                assert(s[k + n + 1] == b[k]);
            }
            if f > 0 {
                assert(s[from - 1] == b[f - 1]);
            }
            if to < s.len() {
                assert(s[to] == b[t]);
            }
            assert(message::token_between(b, token, f, t));
        } else {
            assert(s[n] != ',');
        }
    }
    if message::lists_token(a, token) {
        let (from, to) = choose|from: int, to: int| #[trigger]
            message::token_between(a, token, from, to);
        assert(s.subrange(from, to) == a.subrange(from, to));
        assert forall|k: int| from <= k < to implies s[k] != ',' by {
            assert(s[k] == a[k]);
        }
        if from > 0 {
            assert(s[from - 1] == a[from - 1]);
        }
        if to < n {
            assert(s[to] == a[to]);
        }
        assert(message::token_between(s, token, from, to));
    }
    if message::lists_token(b, token) {
        let (f, t) = choose|from: int, to: int| #[trigger]
            message::token_between(b, token, from, to);
        let from = f + n + 1;
        let to = t + n + 1;
        assert(s.subrange(from, to) == b.subrange(f, t));
        assert forall|k: int| from <= k < to implies s[k] != ',' by {
            assert(s[k] == b[k - n - 1]);
        }
        if f > 0 {
            assert(s[from - 1] == b[f - 1]);
        }
        if t < b.len() {
            assert(s[to] == b[t]);
        }
        assert(message::token_between(s, token, from, to));
    }
    if forall|i: int| 0 <= i < a.len() ==> #[trigger] a[i] != ',' {
        assert(a.subrange(0, n) == a);
        if message::lists_token(a, token) {
            let (from, to) = choose|from: int, to: int| #[trigger]
                message::token_between(a, token, from, to);
            assert(from == 0 && to == n);
        }
        if text::same_ignoring_case(text::trimmed(a), token) {
            assert(message::token_between(a, token, 0, n));
        }
    }
}

/// The Contact of a message is the first one, where every one can be read.
pub proof fn law_contact_is_the_first(headers: Seq<HeaderView>, i: int, c: NameAddrView)
    requires
        0 <= i < headers.len(),
        headers[i] == HeaderView::Contact(FieldView::Typed(c)),
        forall|j: int| 0 <= j < i ==> !(#[trigger] headers[j] is Contact),
    ensures
        (forall|j: int|
            0 <= j < headers.len() ==> !(#[trigger] headers[j] matches HeaderView::Contact(
                FieldView::Malformed(_),
            ))) ==> message::contact_of(headers) == Ok::<_, ErrorView>(Some(c)),
        (exists|j: int|
            0 <= j < headers.len() && (#[trigger] headers[j] matches HeaderView::Contact(
                FieldView::Malformed(_),
            ))) ==> message::contact_of(headers) is Err,
{
    lists::law_first_of_is_the_first(headers, i, |h: HeaderView| header::as_contact(h));
}

/// The methods are named on the wire as they are known, in capital letters.
pub proof fn law_methods_have_their_names(m: Method)
    ensures
        Method::Ack.spec_name() == "ACK"@ && Method::Bye.spec_name() == "BYE"@
            && Method::Cancel.spec_name() == "CANCEL"@ && Method::Info.spec_name() == "INFO"@
            && Method::Invite.spec_name() == "INVITE"@ && Method::Message.spec_name()
            == "MESSAGE"@ && Method::Notify.spec_name() == "NOTIFY"@
            && Method::Options.spec_name() == "OPTIONS"@,
        Method::PRack.spec_name() == "PRACK"@ && Method::Publish.spec_name() == "PUBLISH"@
            && Method::Refer.spec_name() == "REFER"@ && Method::Register.spec_name()
            == "REGISTER"@ && Method::Subscribe.spec_name() == "SUBSCRIBE"@
            && Method::Update.spec_name() == "UPDATE"@,
        m.spec_name().len() > 0,
        forall|i: int|
            0 <= i < m.spec_name().len() ==> 'A' <= #[trigger] m.spec_name()[i] <= 'Z',
        forall|i: int|
            0 <= i < m.spec_name().len() ==> !text::is_space(#[trigger] m.spec_name()[i]),
{
    reveal_strlit("ACK");
    reveal_strlit("BYE");
    reveal_strlit("CANCEL");
    reveal_strlit("INFO");
    reveal_strlit("INVITE");
    reveal_strlit("MESSAGE");
    reveal_strlit("NOTIFY");
    reveal_strlit("OPTIONS");
    reveal_strlit("PRACK");
    reveal_strlit("PUBLISH");
    reveal_strlit("REFER");
    reveal_strlit("REGISTER");
    reveal_strlit("SUBSCRIBE");
    reveal_strlit("UPDATE");
}

/// The rest of what is read from a list of parameters or headers is the first value
/// of its kind as well.
pub proof fn law_first_marks_are_read(params: Seq<ParamView>, headers: Seq<HeaderView>, i: int)
    ensures
        0 <= i < params.len() && (forall|j: int|
            0 <= j < i ==> !(#[trigger] params[j] is Received)) ==> (
        params[i] matches ParamView::Received(r) ==> uri::received_in(params) == Some(r)),
        0 <= i < params.len() && (forall|j: int| 0 <= j < i ==> !(#[trigger] params[j] is Rport))
            ==> (params[i] matches ParamView::Rport(r) ==> uri::rport_in(params) == Some(r)),
        0 <= i < headers.len() && (forall|j: int| 0 <= j < i ==> !(#[trigger] headers[j] is RSeq))
            ==> (headers[i] matches HeaderView::RSeq(n) ==> header::first_rseq(headers) == Some(
            n,
        )),
        0 <= i < headers.len() && (forall|j: int| 0 <= j < i ==> !(#[trigger] headers[j] is RAck))
            ==> (headers[i] matches HeaderView::RAck(v) ==> header::first_rack(headers) == Some(
            v,
        )),
        0 <= i < headers.len() && (forall|j: int|
            0 <= j < i ==> !(#[trigger] headers[j] is SessionId)) ==> (
        headers[i] matches HeaderView::SessionId(s) ==> header::first_session_id(headers) == Some(
            s,
        )),
{
    if 0 <= i < params.len() {
        if (forall|j: int| 0 <= j < i ==> !(#[trigger] params[j] is Received)) && params[i]
            is Received {
            lists::law_first_of_is_the_first(params, i, |p: ParamView| uri::as_received(p));
        }
        if (forall|j: int| 0 <= j < i ==> !(#[trigger] params[j] is Rport)) && params[i] is Rport {
            lists::law_first_of_is_the_first(params, i, |p: ParamView| uri::as_rport(p));
        }
    }
    if 0 <= i < headers.len() {
        if (forall|j: int| 0 <= j < i ==> !(#[trigger] headers[j] is RSeq)) && headers[i] is RSeq {
            lists::law_first_of_is_the_first(headers, i, |h: HeaderView| header::as_rseq(h));
        }
        if (forall|j: int| 0 <= j < i ==> !(#[trigger] headers[j] is RAck)) && headers[i] is RAck {
            lists::law_first_of_is_the_first(headers, i, |h: HeaderView| header::as_rack(h));
        }
        if (forall|j: int| 0 <= j < i ==> !(#[trigger] headers[j] is SessionId)) && headers[i]
            is SessionId {
            lists::law_first_of_is_the_first(headers, i, |h: HeaderView| header::as_session_id(h));
        }
    }
}

/// A header that a message has to have is read from its first place, and each way
/// in which it cannot be read is told apart.
pub proof fn law_headers_are_read_or_refused(headers: Seq<HeaderView>, c: CSeq, to: NameAddrView)
    ensures
        header::first_cseq(headers) == Some(FieldView::Typed(c)) ==> message::cseq_of(headers)
            == Ok::<_, ErrorView>(c),
        header::first_cseq(headers) is None ==> message::cseq_of(headers) == Err::<CSeq, _>(
            ErrorView::MissingHeader(HeaderKind::CSeq),
        ),
        header::first_cseq(headers) matches Some(FieldView::Malformed(_)) ==> message::cseq_of(
            headers,
        ) == Err::<CSeq, _>(ErrorView::MalformedHeader(HeaderKind::CSeq)),
        header::first_to(headers) == Some(FieldView::Typed(to)) ==> message::to_of(headers)
            == Ok::<_, ErrorView>(to) && message::to_tag_of(headers) == Ok::<_, ErrorView>(
            to.tag(),
        ),
        header::first_to(headers) is None ==> message::to_of(headers) == Err::<NameAddrView, _>(
            ErrorView::MissingHeader(HeaderKind::To),
        ),
        header::first_from(headers) == Some(FieldView::Typed(to)) ==> message::from_of(headers)
            == Ok::<_, ErrorView>(to),
        header::first_from(headers) is None ==> message::from_of(headers) == Err::<
            NameAddrView,
            _,
        >(ErrorView::MissingHeader(HeaderKind::From)),
        header::first_call_id(headers) is None ==> message::call_id_of(headers) == Err::<
            Seq<char>,
            _,
        >(ErrorView::MissingHeader(HeaderKind::CallId)),
        header::first_call_id(headers) matches Some(v) ==> message::call_id_of(headers) == Ok::<
            _,
            ErrorView,
        >(v),
{
}

/// The sender of a message names itself by the first identifier of the first
/// Session-ID.
pub proof fn law_sender_names_itself(headers: Seq<HeaderView>, s: SessionIdView)
    requires
        header::first_session_id(headers) == Some(s),
        session_id::is_uuid(s.local),
    ensures
        s.local != "00000000000000000000000000000000"@ ==> message::peer_uuid_of(headers) == Some(
            s.local,
        ),
        s.local == "00000000000000000000000000000000"@ ==> message::peer_uuid_of(headers) is None,
{
}

}
