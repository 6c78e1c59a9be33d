//! What the requests and responses of a dialog say.

use super::dialog;
use super::dialog::DialogView;
use super::requests;
use super::responses;
use crate::lists;
use crate::sip::basic::{Method, Transport, Version};
use crate::sip::header;
use crate::sip::header::{CSeq, FieldView, HeaderKind, HeaderView};
use crate::sip::message;
use crate::sip::message::RequestView;
use crate::sip::session_id;
use crate::sip::session_id::SessionIdView;
use crate::sip::status::StatusCode;
use crate::sip::uri;
use crate::sip::uri::{NameAddrView, ParamView, ViaView};
use crate::text;
use crate::transaction::endpoint::EndpointView;
use crate::transaction::key::TransactionRole;
use crate::transaction::message as build;
use crate::transport::sip_addr::SipAddrView;
use vstd::prelude::*;

verus! {

/// No header of `kind` is given by the caller.
pub open spec fn leaves_out(headers: Option<Seq<HeaderView>>, kind: HeaderKind) -> bool {
    headers matches Some(hs) ==> !header::has_kind(hs, kind)
}

/// The headers that a response takes over from its request as they are.
pub open spec fn is_mirrored(kind: HeaderKind) -> bool {
    kind == HeaderKind::Via || kind == HeaderKind::From || kind == HeaderKind::CSeq || kind
        == HeaderKind::CallId || kind == HeaderKind::RecordRoute
}

proof fn lemma_of_kind_taken(
    headers: Seq<HeaderView>,
    status: StatusCode,
    tag: Seq<char>,
    kind: HeaderKind,
)
    ensures
        ({
            let taken = lists::all_of(
                headers,
                |h: HeaderView| responses::taken_over(h, status, tag),
            );
            &&& is_mirrored(kind) ==> header::of_kind(taken, kind) == header::of_kind(
                headers,
                kind,
            )
            &&& !is_mirrored(kind) && kind != HeaderKind::To ==> header::of_kind(taken, kind)
                == Seq::<HeaderView>::empty()
        }),
    decreases headers.len(),
{
    reveal(Seq::filter);
    let f = |h: HeaderView| responses::taken_over(h, status, tag);
    if headers.len() > 0 {
        let rest = headers.drop_last();
        lemma_of_kind_taken(rest, status, tag, kind);
        if let Some(h) = f(headers.last()) {
            header::lemma_of_kind_push(lists::all_of(rest, f), h, kind);
        }
    }
}

proof fn lemma_of_kind_history(headers: Seq<HeaderView>, kind: HeaderKind)
    ensures
        ({
            let found = lists::all_of(headers, |h: HeaderView| responses::as_history(h));
            header::of_kind(found, kind) == if kind == HeaderKind::HistoryInfo {
                header::of_kind(headers, kind)
            } else {
                Seq::empty()
            }
        }),
    decreases headers.len(),
{
    reveal(Seq::filter);
    let f = |h: HeaderView| responses::as_history(h);
    if headers.len() > 0 {
        let rest = headers.drop_last();
        lemma_of_kind_history(rest, kind);
        if let Some(h) = f(headers.last()) {
            header::lemma_of_kind_push(lists::all_of(rest, f), h, kind);
        }
    }
}

proof fn lemma_of_kind_optional(h: Option<HeaderView>, kind: HeaderKind)
    ensures
        header::of_kind(requests::optional(h), kind) == match h {
            Some(x) if x.kind() == kind => seq![x],
            _ => Seq::empty(),
        },
{
    reveal(Seq::filter);
    if let Some(x) = h {
        header::lemma_of_kind_push(Seq::empty(), x, kind);
        assert(seq![x] == Seq::<HeaderView>::empty().push(x));
    }
}

proof fn lemma_of_kind_not_named(headers: Seq<HeaderView>, name: Seq<char>, kind: HeaderKind)
    requires
        kind != HeaderKind::Other,
    ensures
        header::of_kind(headers.filter(|x: HeaderView| responses::is_not_named(x, name)), kind)
            == header::of_kind(headers, kind),
    decreases headers.len(),
{
    reveal(Seq::filter);
    let keep = |x: HeaderView| responses::is_not_named(x, name);
    if headers.len() > 0 {
        let rest = headers.drop_last();
        lemma_of_kind_not_named(rest, name, kind);
        if keep(headers.last()) {
            header::lemma_of_kind_push(rest.filter(keep), headers.last(), kind);
        }
    }
}

proof fn lemma_of_kind_with_header(headers: Seq<HeaderView>, h: HeaderView, kind: HeaderKind)
    requires
        kind != HeaderKind::Other,
        kind != HeaderKind::HistoryInfo,
    ensures
        header::of_kind(responses::with_header(headers, h), kind) == if h.kind() == kind {
            seq![h]
        } else {
            header::of_kind(headers, kind)
        },
{
    match h {
        HeaderView::Other(name, _) => {
            lemma_of_kind_not_named(headers, name, kind);
            header::lemma_of_kind_push(
                headers.filter(|x: HeaderView| responses::is_not_named(x, name)),
                h,
                kind,
            );
        },
        HeaderView::HistoryInfo(_) => {
            header::lemma_of_kind_push(headers, h, kind);
        },
        _ => {
            header::lemma_of_kind_without(headers, h.kind(), kind);
            header::lemma_of_kind_push(header::without(headers, h.kind()), h, kind);
        },
    }
}

proof fn lemma_of_kind_with_headers(
    headers: Seq<HeaderView>,
    more: Seq<HeaderView>,
    kind: HeaderKind,
)
    requires
        kind != HeaderKind::Other,
        !header::has_kind(more, kind),
    ensures
        header::of_kind(responses::with_headers(headers, more), kind) == header::of_kind(
            headers,
            kind,
        ),
    decreases more.len(),
{
    if more.len() > 0 {
        let rest = more.drop_last();
        assert forall|i: int| 0 <= i < rest.len() implies (#[trigger] rest[i]).kind() != kind by {
            assert(rest[i] == more[i]);
        }
        assert(more[more.len() - 1].kind() != kind);
        lemma_of_kind_with_headers(headers, rest, kind);
        let before = responses::with_headers(headers, rest);
        if kind != HeaderKind::HistoryInfo {
            lemma_of_kind_with_header(before, more.last(), kind);
        } else {
            match more.last() {
                HeaderView::Other(name, _) => {
                    lemma_of_kind_not_named(before, name, kind);
                    header::lemma_of_kind_push(
                        before.filter(|x: HeaderView| responses::is_not_named(x, name)),
                        more.last(),
                        kind,
                    );
                },
                _ => {
                    header::lemma_of_kind_without(before, more.last().kind(), kind);
                    header::lemma_of_kind_push(
                        header::without(before, more.last().kind()),
                        more.last(),
                        kind,
                    );
                },
            }
        }
    }
}

proof fn lemma_of_kind_finished(
    all: Seq<HeaderView>,
    length: HeaderView,
    agent: HeaderView,
    kind: HeaderKind,
)
    requires
        length is ContentLength,
        agent is UserAgent,
        kind != HeaderKind::ContentLength,
        kind != HeaderKind::UserAgent,
    ensures
        header::of_kind(
            header::without(
                header::without(all, HeaderKind::ContentLength),
                HeaderKind::UserAgent,
            ).push(length).push(agent),
            kind,
        ) == header::of_kind(all, kind),
{
    let short = header::without(all, HeaderKind::ContentLength);
    header::lemma_of_kind_without(all, HeaderKind::ContentLength, kind);
    header::lemma_of_kind_without(short, HeaderKind::UserAgent, kind);
    let kept = header::without(short, HeaderKind::UserAgent);
    header::lemma_of_kind_push(kept, length, kind);
    header::lemma_of_kind_push(kept.push(length), agent, kind);
}

proof fn lemma_of_kind_own(
    d: DialogView,
    request: Seq<HeaderView>,
    status: StatusCode,
    headers: Option<Seq<HeaderView>>,
    kind: HeaderKind,
)
    ensures
        ({
            let own = header::of_kind(
                responses::own_response_headers(d, request, status, headers),
                kind,
            );
            let contact = match requests::contact_header(d) {
                Some(h) => seq![h],
                None => Seq::empty(),
            };
            let session = match responses::response_session(d, request) {
                Some(h) => seq![h],
                None => Seq::empty(),
            };
            &&& is_mirrored(kind) ==> own == header::of_kind(request, kind)
            &&& kind == HeaderKind::Contact ==> own == contact
            &&& kind == HeaderKind::SessionId && status != StatusCode::Trying ==> own == session
            &&& kind == HeaderKind::SessionId && status == StatusCode::Trying ==> own
                == Seq::<HeaderView>::empty()
            &&& kind == HeaderKind::HistoryInfo && status == StatusCode::Trying ==> own
                == Seq::<HeaderView>::empty()
            &&& kind == HeaderKind::HistoryInfo && status != StatusCode::Trying && leaves_out(
                headers,
                kind,
            ) ==> own == header::of_kind(request, kind)
        }),
{
    let taken = lists::all_of(
        request,
        |h: HeaderView| responses::taken_over(h, status, d.id.local_tag),
    );
    let contact = requests::optional(requests::contact_header(d));
    let session = requests::optional(responses::response_session(d, request));
    let history = lists::all_of(request, |h: HeaderView| responses::as_history(h));
    lemma_of_kind_taken(request, status, d.id.local_tag, kind);
    lemma_of_kind_optional(requests::contact_header(d), kind);
    lemma_of_kind_optional(responses::response_session(d, request), kind);
    lemma_of_kind_history(request, kind);
    header::lemma_of_kind_add(taken, contact, kind);
    header::lemma_of_kind_add(taken + contact, session, kind);
    header::lemma_of_kind_add(taken + contact + session, history, kind);
}

proof fn lemma_of_kind_response(
    d: DialogView,
    user_agent: Seq<char>,
    request: RequestView,
    status: StatusCode,
    headers: Option<Seq<HeaderView>>,
    body: Seq<u8>,
    kind: HeaderKind,
)
    requires
        kind != HeaderKind::Other,
        kind != HeaderKind::ContentLength,
        kind != HeaderKind::UserAgent,
        leaves_out(headers, kind),
    ensures
        header::of_kind(
            responses::response_in(d, user_agent, request, status, headers, body).headers,
            kind,
        ) == header::of_kind(
            responses::own_response_headers(d, request.headers, status, headers),
            kind,
        ),
{
    reveal(responses::response_in);
    let own = responses::own_response_headers(d, request.headers, status, headers);
    let all = match headers {
        Some(hs) => responses::with_headers(own, hs),
        None => own,
    };
    if let Some(hs) = headers {
        lemma_of_kind_with_headers(own, hs, kind);
    }
    lemma_of_kind_finished(
        all,
        HeaderView::ContentLength(build::length_of(body)),
        HeaderView::UserAgent(user_agent),
        kind,
    );
}

/// A response bears the Via, From, CSeq, Call-ID and Record-Route headers of its
/// request, each kind with all its values and in the same order, unless the
/// caller gives one of its own.
pub proof fn law_response_mirrors_its_request(
    d: DialogView,
    user_agent: Seq<char>,
    request: RequestView,
    status: StatusCode,
    headers: Option<Seq<HeaderView>>,
    body: Seq<u8>,
    kind: HeaderKind,
)
    requires
        kind == HeaderKind::Via || kind == HeaderKind::From || kind == HeaderKind::CSeq || kind
            == HeaderKind::CallId || kind == HeaderKind::RecordRoute,
        headers matches Some(hs) ==> !header::has_kind(hs, kind),
    ensures
        header::of_kind(
            responses::response_in(d, user_agent, request, status, headers, body).headers,
            kind,
        ) == header::of_kind(request.headers, kind),
{
    lemma_of_kind_response(d, user_agent, request, status, headers, body, kind);
    lemma_of_kind_own(d, request.headers, status, headers, kind);
}

/// A response other than a 100 repeats the request's history, all of it and in
/// the same order, unless the caller tells another. A 100 repeats none.
pub proof fn law_response_repeats_the_history(
    d: DialogView,
    user_agent: Seq<char>,
    request: RequestView,
    status: StatusCode,
    headers: Option<Seq<HeaderView>>,
    body: Seq<u8>,
)
    requires
        headers matches Some(hs) ==> !header::has_kind(hs, HeaderKind::HistoryInfo),
    ensures
        ({
            let r = responses::response_in(d, user_agent, request, status, headers, body);
            let told = header::of_kind(r.headers, HeaderKind::HistoryInfo);
            &&& status != StatusCode::Trying ==> told == header::of_kind(
                request.headers,
                HeaderKind::HistoryInfo,
            )
            &&& status == StatusCode::Trying ==> told.len() == 0
        }),
{
    lemma_of_kind_response(
        d,
        user_agent,
        request,
        status,
        headers,
        body,
        HeaderKind::HistoryInfo,
    );
    lemma_of_kind_own(d, request.headers, status, headers, HeaderKind::HistoryInfo);
}

/// A response tells the Contact of this end, as far as it has one, and no other,
/// unless the caller gives one.
pub proof fn law_response_tells_the_contact(
    d: DialogView,
    user_agent: Seq<char>,
    request: RequestView,
    status: StatusCode,
    headers: Option<Seq<HeaderView>>,
    body: Seq<u8>,
)
    requires
        headers matches Some(hs) ==> !header::has_kind(hs, HeaderKind::Contact),
    ensures
        ({
            let r = responses::response_in(d, user_agent, request, status, headers, body);
            header::of_kind(r.headers, HeaderKind::Contact) == match d.local_contact {
                Some(u) => seq![
                    HeaderView::Contact(
                        FieldView::Typed(
                            NameAddrView { display_name: None, uri: u, params: Seq::empty() },
                        ),
                    ),
                ],
                None => Seq::empty(),
            }
        }),
{
    lemma_of_kind_response(d, user_agent, request, status, headers, body, HeaderKind::Contact);
    lemma_of_kind_own(d, request.headers, status, headers, HeaderKind::Contact);
}

/// A response other than a 100 names both ends by their identifiers: this end
/// first, then the peer as the request names it, or else as it is known, or else
/// by the nil identifier. There is none in a 100, and none where the dialog has
/// none.
pub proof fn law_response_names_the_session(
    d: DialogView,
    user_agent: Seq<char>,
    request: RequestView,
    status: StatusCode,
    headers: Option<Seq<HeaderView>>,
    body: Seq<u8>,
)
    requires
        headers matches Some(hs) ==> !header::has_kind(hs, HeaderKind::SessionId),
    ensures
        ({
            let r = responses::response_in(d, user_agent, request, status, headers, body);
            let named = header::of_kind(r.headers, HeaderKind::SessionId);
            &&& status == StatusCode::Trying || d.session_id is None ==> named.len() == 0
            &&& status != StatusCode::Trying ==> (d.session_id matches Some(s) ==> {
                let other = match message::peer_uuid_of(request.headers) {
                    Some(p) => p,
                    None => match s.remote {
                        Some(q) => q,
                        None => "00000000000000000000000000000000"@,
                    },
                };
                session_id::is_uuid(s.local) && session_id::is_uuid(other) ==> named == seq![
                    HeaderView::SessionId(SessionIdView { local: s.local, remote: Some(other) }),
                ]
            })
        }),
{
    lemma_of_kind_response(d, user_agent, request, status, headers, body, HeaderKind::SessionId);
    lemma_of_kind_own(d, request.headers, status, headers, HeaderKind::SessionId);
}

/// What the caller gives is what the response says: the last header that is given
/// of a kind is the only one of its kind.
pub proof fn law_response_says_what_is_given(
    d: DialogView,
    user_agent: Seq<char>,
    request: RequestView,
    status: StatusCode,
    given: Seq<HeaderView>,
    body: Seq<u8>,
    i: int,
)
    requires
        0 <= i < given.len(),
        forall|j: int| i < j < given.len() ==> (#[trigger] given[j]).kind() != given[i].kind(),
        !(given[i] is Other || given[i] is HistoryInfo || given[i] is ContentLength
            || given[i] is UserAgent),
    ensures
        header::of_kind(
            responses::response_in(d, user_agent, request, status, Some(given), body).headers,
            given[i].kind(),
        ) == seq![given[i]],
{
    reveal(responses::response_in);
    let own = responses::own_response_headers(d, request.headers, status, Some(given));
    lemma_of_kind_given(own, given, i);
    lemma_of_kind_finished(
        responses::with_headers(own, given),
        HeaderView::ContentLength(build::length_of(body)),
        HeaderView::UserAgent(user_agent),
        given[i].kind(),
    );
}

proof fn lemma_of_kind_given(headers: Seq<HeaderView>, given: Seq<HeaderView>, i: int)
    requires
        0 <= i < given.len(),
        forall|j: int| i < j < given.len() ==> (#[trigger] given[j]).kind() != given[i].kind(),
        !(given[i] is Other || given[i] is HistoryInfo),
    ensures
        header::of_kind(responses::with_headers(headers, given), given[i].kind()) == seq![given[i]],
    decreases given.len(),
{
    let rest = given.drop_last();
    lemma_of_kind_with_header(
        responses::with_headers(headers, rest),
        given.last(),
        given[i].kind(),
    );
    if i < given.len() - 1 {
        assert forall|j: int| i < j < rest.len() implies (#[trigger] rest[j]).kind()
            != rest[i].kind() by {
            assert(rest[j] == given[j]);
        }
        assert(given[given.len() - 1].kind() != given[i].kind());
        lemma_of_kind_given(headers, rest, i);
    }
}

/// Headers that are put together from several parts.
spec fn joined(parts: Seq<Seq<HeaderView>>) -> Seq<HeaderView>
    decreases parts.len(),
{
    if parts.len() == 0 {
        Seq::empty()
    } else {
        joined(parts.drop_last()) + parts.last()
    }
}

proof fn lemma_none_joined(parts: Seq<Seq<HeaderView>>, kind: HeaderKind)
    requires
        forall|i: int| 0 <= i < parts.len() ==> !header::has_kind(#[trigger] parts[i], kind),
    ensures
        header::of_kind(joined(parts), kind) == Seq::<HeaderView>::empty(),
    decreases parts.len(),
{
    reveal(Seq::filter);
    if parts.len() > 0 {
        let rest = parts.drop_last();
        assert forall|i: int| 0 <= i < rest.len() implies !header::has_kind(
            #[trigger] rest[i],
            kind,
        ) by {
            assert(rest[i] == parts[i]);
        }
        assert(!header::has_kind(parts[parts.len() - 1], kind));
        lemma_none_joined(rest, kind);
        header::lemma_of_kind_add(joined(rest), parts.last(), kind);
        header::lemma_of_kind_none(parts.last(), kind);
    }
}

/// Of one kind there are only the headers of one part.
proof fn lemma_one_joined(parts: Seq<Seq<HeaderView>>, j: int, kind: HeaderKind)
    requires
        0 <= j < parts.len(),
        forall|i: int|
            0 <= i < parts.len() && i != j ==> !header::has_kind(#[trigger] parts[i], kind),
    ensures
        header::of_kind(joined(parts), kind) == header::of_kind(parts[j], kind),
    decreases parts.len(),
{
    let rest = parts.drop_last();
    header::lemma_of_kind_add(joined(rest), parts.last(), kind);
    assert forall|i: int| 0 <= i < rest.len() && i != j implies !header::has_kind(
        #[trigger] rest[i],
        kind,
    ) by {
        assert(rest[i] == parts[i]);
    }
    if j == parts.len() - 1 {
        lemma_none_joined(rest, kind);
        assert(Seq::<HeaderView>::empty() + header::of_kind(parts[j], kind) == header::of_kind(
            parts[j],
            kind,
        ));
    } else {
        assert(!header::has_kind(parts[parts.len() - 1], kind));
        lemma_one_joined(rest, j, kind);
        header::lemma_of_kind_none(parts.last(), kind);
        assert(header::of_kind(parts[j], kind) + Seq::<HeaderView>::empty() == header::of_kind(
            parts[j],
            kind,
        ));
    }
}

/// The parts of a request within a dialog that the dialog writes.
spec fn own_parts(
    d: DialogView,
    user_agent: Seq<char>,
    cseq: CSeq,
    top: ViaView,
    headers: Option<Seq<HeaderView>>,
    body: Seq<u8>,
) -> Seq<Seq<HeaderView>> {
    seq![
        seq![HeaderView::Via(FieldView::Typed(top))],
        requests::address_headers(d, user_agent, cseq),
        requests::optional(requests::contact_header(d)),
        build::route_headers(d.route_set),
        seq![HeaderView::MaxForwards(70)],
        requests::optional(requests::request_session(d, headers)),
        seq![HeaderView::ContentLength(build::length_of(body))],
    ]
}

/// The part that holds the headers of a kind.
spec fn part_of(kind: HeaderKind) -> int {
    match kind {
        HeaderKind::Via => 0,
        HeaderKind::Contact => 2,
        HeaderKind::Route => 3,
        HeaderKind::MaxForwards => 4,
        HeaderKind::SessionId => 5,
        HeaderKind::ContentLength => 6,
        _ => 1,
    }
}

proof fn lemma_request_is_joined(
    d: DialogView,
    user_agent: Seq<char>,
    cseq: CSeq,
    top: ViaView,
    headers: Option<Seq<HeaderView>>,
    body: Seq<u8>,
)
    ensures
        requests::request_headers(d, user_agent, cseq, seq![top], headers, body) == joined(
            own_parts(d, user_agent, cseq, top, headers, body),
        ) + requests::custom(headers),
{
    let p = own_parts(d, user_agent, cseq, top, headers, body);
    assert(seq![top].map_values(|v: ViaView| requests::via_header(v)) == p[0]);
    assert(p.take(0) == Seq::<Seq<HeaderView>>::empty());
    assert(joined(p.take(1)) == p[0]) by {
        assert(p.take(1).drop_last() == p.take(0));
        assert(joined(p.take(0)) == Seq::<HeaderView>::empty());
        assert(Seq::<HeaderView>::empty() + p[0] == p[0]);
    }
    assert(joined(p.take(2)) == p[0] + p[1]) by {
        assert(p.take(2).drop_last() == p.take(1));
    }
    assert(joined(p.take(3)) == p[0] + p[1] + p[2]) by {
        assert(p.take(3).drop_last() == p.take(2));
    }
    assert(joined(p.take(4)) == p[0] + p[1] + p[2] + p[3]) by {
        assert(p.take(4).drop_last() == p.take(3));
    }
    assert(joined(p.take(5)) == p[0] + p[1] + p[2] + p[3] + p[4]) by {
        assert(p.take(5).drop_last() == p.take(4));
    }
    assert(joined(p.take(6)) == p[0] + p[1] + p[2] + p[3] + p[4] + p[5]) by {
        assert(p.take(6).drop_last() == p.take(5));
    }
    assert(joined(p) == p[0] + p[1] + p[2] + p[3] + p[4] + p[5] + p[6]) by {
        assert(p.drop_last() == p.take(6));
    }
}

proof fn lemma_parts_kinds(
    d: DialogView,
    user_agent: Seq<char>,
    cseq: CSeq,
    top: ViaView,
    headers: Option<Seq<HeaderView>>,
    body: Seq<u8>,
    kind: HeaderKind,
    i: int,
)
    requires
        0 <= i < 7,
        i != part_of(kind),
    ensures
        !header::has_kind(own_parts(d, user_agent, cseq, top, headers, body)[i], kind),
{
    let part = own_parts(d, user_agent, cseq, top, headers, body)[i];
    assert forall|k: int| 0 <= k < part.len() implies (#[trigger] part[k]).kind() != kind by {
        if i == 1 {
            assert(k == 0 || k == 1 || k == 2 || k == 3 || k == 4);
        }
    }
}

/// The headers of one kind of a request within a dialog: the dialog's own, and
/// those that the caller gives.
proof fn lemma_of_kind_request(
    d: DialogView,
    user_agent: Seq<char>,
    cseq: CSeq,
    top: ViaView,
    headers: Option<Seq<HeaderView>>,
    body: Seq<u8>,
    kind: HeaderKind,
)
    ensures
        header::of_kind(
            requests::request_headers(d, user_agent, cseq, seq![top], headers, body),
            kind,
        ) == header::of_kind(
            own_parts(d, user_agent, cseq, top, headers, body)[part_of(kind)],
            kind,
        ) + header::of_kind(requests::custom(headers), kind),
{
    let parts = own_parts(d, user_agent, cseq, top, headers, body);
    lemma_request_is_joined(d, user_agent, cseq, top, headers, body);
    assert forall|i: int| 0 <= i < parts.len() && i != part_of(kind) implies !header::has_kind(
        #[trigger] parts[i],
        kind,
    ) by {
        lemma_parts_kinds(d, user_agent, cseq, top, headers, body, kind, i);
    }
    lemma_one_joined(parts, part_of(kind), kind);
    header::lemma_of_kind_add(joined(parts), requests::custom(headers), kind);
}

/// The number of a request within a dialog.
spec fn number_of(d: DialogView, method: Method, cseq: Option<u32>) -> CSeq {
    CSeq {
        seq: match cseq {
            Some(n) => n,
            None => dialog::next_seq(d.local_seq),
        },
        method,
    }
}

proof fn lemma_of_kind_next(
    d: DialogView,
    ep: EndpointView,
    addrs: Seq<SipAddrView>,
    branch: Seq<char>,
    method: Method,
    cseq: Option<u32>,
    headers: Option<Seq<HeaderView>>,
    body: Seq<u8>,
    kind: HeaderKind,
)
    requires
        addrs.len() > 0,
    ensures
        ({
            let (after, r) = requests::next_request(
                d,
                ep,
                addrs,
                branch,
                method,
                cseq,
                headers,
                body,
            );
            &&& r matches Ok(req)
            &&& requests::request_via(d, ep, addrs, branch) matches Ok(top)
            &&& req.method == method && req.uri == d.remote_uri && req.body == body
            &&& req.version == Version::V2
            &&& after == DialogView {
                local_seq: match cseq {
                    Some(_) => d.local_seq,
                    None => dialog::next_seq(d.local_seq),
                },
                ..d
            }
            &&& header::of_kind(req.headers, kind) == header::of_kind(
                own_parts(
                    d,
                    ep.user_agent,
                    number_of(d, method, cseq),
                    top,
                    headers,
                    body,
                )[part_of(kind)],
                kind,
            ) + header::of_kind(requests::custom(headers), kind)
        }),
{
    reveal(requests::next_request);
    reveal(requests::request_in);
    let top = requests::request_via(d, ep, addrs, branch)->Ok_0;
    lemma_of_kind_request(
        d,
        ep.user_agent,
        number_of(d, method, cseq),
        top,
        headers,
        body,
        kind,
    );
}

proof fn lemma_of_kind_one(h: HeaderView, kind: HeaderKind)
    ensures
        header::of_kind(seq![h], kind) == if h.kind() == kind {
            seq![h]
        } else {
            Seq::empty()
        },
{
    lemma_of_kind_optional(Some(h), kind);
}

proof fn lemma_of_kind_five(headers: Seq<HeaderView>, kind: HeaderKind)
    requires
        headers.len() == 5,
        headers[0] is CallId,
        headers[1] is From,
        headers[2] is To,
        headers[3] is CSeq,
        headers[4] is UserAgent,
    ensures
        header::of_kind(headers, kind) == match kind {
            HeaderKind::CallId => seq![headers[0]],
            HeaderKind::From => seq![headers[1]],
            HeaderKind::To => seq![headers[2]],
            HeaderKind::CSeq => seq![headers[3]],
            HeaderKind::UserAgent => seq![headers[4]],
            _ => Seq::empty(),
        },
{
    match kind {
        HeaderKind::CallId => header::lemma_of_kind_once(headers, 0),
        HeaderKind::From => header::lemma_of_kind_once(headers, 1),
        HeaderKind::To => header::lemma_of_kind_once(headers, 2),
        HeaderKind::CSeq => header::lemma_of_kind_once(headers, 3),
        HeaderKind::UserAgent => header::lemma_of_kind_once(headers, 4),
        _ => header::lemma_of_kind_none(headers, kind),
    }
}

/// The Via that a request bears names the address that it leaves from: the
/// address's transport, or UDP, its host and port, the branch, and that the answer
/// is to come back to where the request came from.
pub open spec fn leaves_from(top: ViaView, addr: SipAddrView, branch: Seq<char>) -> bool {
    &&& top.version == Version::V2
    &&& addr.transport matches Some(t) ==> top.transport == t
    &&& addr.transport is None ==> top.transport == Transport::Udp
    &&& top.uri.host_with_port == addr.addr && top.uri.user is None && top.uri.params.len() == 0
    &&& top.params.len() >= 2
    &&& top.params[0] == ParamView::Branch(branch)
    &&& top.params[1] == ParamView::Rport(None)
    &&& addr.transport == Some(Transport::Tcp) || addr.transport == Some(Transport::Tls)
        ==> top.params.len() == 3 && top.params[2] == ParamView::Other("alias"@, None)
    &&& !(addr.transport == Some(Transport::Tcp) || addr.transport == Some(Transport::Tls))
        ==> top.params.len() == 2
}

/// A request within a dialog goes to the peer, names the dialog, and comes from
/// this end: a client's is the From end of the dialog, and a server's the To end.
pub proof fn law_request_goes_from_end_to_end(
    d: DialogView,
    ep: EndpointView,
    addrs: Seq<SipAddrView>,
    branch: Seq<char>,
    method: Method,
    cseq: Option<u32>,
    headers: Option<Seq<HeaderView>>,
    body: Seq<u8>,
)
    requires
        addrs.len() > 0,
    ensures
        ({
            let (after, r) = requests::next_request(
                d,
                ep,
                addrs,
                branch,
                method,
                cseq,
                headers,
                body,
            );
            let (near, far) = if d.role == TransactionRole::Client {
                (d.from, d.to)
            } else {
                (d.to, d.from)
            };
            &&& r matches Ok(req)
            &&& req.method == method && req.uri == d.remote_uri && req.body == body
            &&& req.version == Version::V2
            &&& header::of_kind(req.headers, HeaderKind::CallId) == seq![
                HeaderView::CallId(d.id.call_id),
            ]
            &&& header::of_kind(req.headers, HeaderKind::From) == seq![
                HeaderView::From(FieldView::Typed(near)),
            ]
            &&& header::of_kind(req.headers, HeaderKind::To) == seq![
                HeaderView::To(FieldView::Typed(far)),
            ]
        }),
{
    let names = requests::address_headers(d, ep.user_agent, number_of(d, method, cseq));
    lemma_custom_has_no_system(headers);
    lemma_of_kind_five(names, HeaderKind::CallId);
    lemma_of_kind_five(names, HeaderKind::From);
    lemma_of_kind_five(names, HeaderKind::To);
    lemma_of_kind_next(d, ep, addrs, branch, method, cseq, headers, body, HeaderKind::CallId);
    lemma_of_kind_next(d, ep, addrs, branch, method, cseq, headers, body, HeaderKind::From);
    lemma_of_kind_next(d, ep, addrs, branch, method, cseq, headers, body, HeaderKind::To);
}

/// A request within a dialog bears the number that is asked for, which leaves the
/// dialog as it is, or else the next number of the dialog, which is then its last.
pub proof fn law_request_bears_its_number(
    d: DialogView,
    ep: EndpointView,
    addrs: Seq<SipAddrView>,
    branch: Seq<char>,
    method: Method,
    cseq: Option<u32>,
    headers: Option<Seq<HeaderView>>,
    body: Seq<u8>,
)
    requires
        addrs.len() > 0,
    ensures
        ({
            let (after, r) = requests::next_request(
                d,
                ep,
                addrs,
                branch,
                method,
                cseq,
                headers,
                body,
            );
            &&& r matches Ok(req)
            &&& cseq matches Some(n) ==> after == d && header::of_kind(
                req.headers,
                HeaderKind::CSeq,
            ) == seq![HeaderView::CSeq(FieldView::Typed(CSeq { seq: n, method }))]
            &&& cseq is None && d.local_seq < u32::MAX ==> after.local_seq == d.local_seq + 1
                && header::of_kind(req.headers, HeaderKind::CSeq) == seq![
                HeaderView::CSeq(FieldView::Typed(CSeq { seq: after.local_seq, method })),
            ]
        }),
{
    let names = requests::address_headers(d, ep.user_agent, number_of(d, method, cseq));
    lemma_custom_has_no_system(headers);
    lemma_of_kind_five(names, HeaderKind::CSeq);
    lemma_of_kind_next(d, ep, addrs, branch, method, cseq, headers, body, HeaderKind::CSeq);
}

/// A request within a dialog follows the route set in its order, may be forwarded
/// 70 times, and tells the length of its body.
pub proof fn law_request_follows_the_route_set(
    d: DialogView,
    ep: EndpointView,
    addrs: Seq<SipAddrView>,
    branch: Seq<char>,
    method: Method,
    cseq: Option<u32>,
    headers: Option<Seq<HeaderView>>,
    body: Seq<u8>,
)
    requires
        addrs.len() > 0,
        body.len() <= u32::MAX,
    ensures
        ({
            let (after, r) = requests::next_request(
                d,
                ep,
                addrs,
                branch,
                method,
                cseq,
                headers,
                body,
            );
            &&& r matches Ok(req)
            &&& header::of_kind(req.headers, HeaderKind::MaxForwards) == seq![
                HeaderView::MaxForwards(70),
            ]
            &&& header::of_kind(req.headers, HeaderKind::ContentLength) == seq![
                HeaderView::ContentLength(body.len() as u32),
            ]
            &&& header::of_kind(req.headers, HeaderKind::Route).len() == d.route_set.len()
            &&& forall|i: int|
                0 <= i < d.route_set.len() ==> #[trigger] header::of_kind(
                    req.headers,
                    HeaderKind::Route,
                )[i] == HeaderView::Route(d.route_set[i])
        }),
{
    lemma_custom_has_no_system(headers);
    lemma_of_kind_one(HeaderView::MaxForwards(70), HeaderKind::MaxForwards);
    lemma_of_kind_one(
        HeaderView::ContentLength(build::length_of(body)),
        HeaderKind::ContentLength,
    );
    header::lemma_of_kind_all(build::route_headers(d.route_set), HeaderKind::Route);
    lemma_of_kind_next(d, ep, addrs, branch, method, cseq, headers, body, HeaderKind::MaxForwards);
    lemma_of_kind_next(d, ep, addrs, branch, method, cseq, headers, body, HeaderKind::ContentLength);
    lemma_of_kind_next(d, ep, addrs, branch, method, cseq, headers, body, HeaderKind::Route);
}

proof fn lemma_custom_has_no_system(headers: Option<Seq<HeaderView>>)
    ensures
        ({
            let given = requests::custom(headers);
            &&& header::of_kind(given, HeaderKind::Via) == Seq::<HeaderView>::empty()
            &&& header::of_kind(given, HeaderKind::CallId) == Seq::<HeaderView>::empty()
            &&& header::of_kind(given, HeaderKind::From) == Seq::<HeaderView>::empty()
            &&& header::of_kind(given, HeaderKind::To) == Seq::<HeaderView>::empty()
            &&& header::of_kind(given, HeaderKind::CSeq) == Seq::<HeaderView>::empty()
            &&& header::of_kind(given, HeaderKind::MaxForwards) == Seq::<HeaderView>::empty()
            &&& header::of_kind(given, HeaderKind::ContentLength) == Seq::<HeaderView>::empty()
            &&& header::of_kind(given, HeaderKind::Route) == Seq::<HeaderView>::empty()
        }),
{
    let given = requests::custom(headers);
    let keep = |h: HeaderView| !dialog::is_system(h);
    if let Some(hs) = headers {
        assert forall|i: int| 0 <= i < given.len() implies !dialog::is_system(
            #[trigger] given[i],
        ) by {
            hs.lemma_filter_pred(keep, i);
        }
    }
    header::lemma_of_kind_none(given, HeaderKind::Via);
    header::lemma_of_kind_none(given, HeaderKind::CallId);
    header::lemma_of_kind_none(given, HeaderKind::From);
    header::lemma_of_kind_none(given, HeaderKind::To);
    header::lemma_of_kind_none(given, HeaderKind::CSeq);
    header::lemma_of_kind_none(given, HeaderKind::MaxForwards);
    header::lemma_of_kind_none(given, HeaderKind::ContentLength);
    header::lemma_of_kind_none(given, HeaderKind::Route);
}

proof fn lemma_of_kind_custom(headers: Option<Seq<HeaderView>>, kind: HeaderKind)
    requires
        !(kind == HeaderKind::Via || kind == HeaderKind::CallId || kind == HeaderKind::From
            || kind == HeaderKind::To || kind == HeaderKind::CSeq || kind
            == HeaderKind::MaxForwards || kind == HeaderKind::ContentLength || kind
            == HeaderKind::Route),
    ensures
        header::of_kind(requests::custom(headers), kind) == match headers {
            Some(hs) => header::of_kind(hs, kind),
            None => Seq::empty(),
        },
    decreases
            match headers {
                Some(hs) => hs.len(),
                None => 0,
            },
{
    reveal(Seq::filter);
    if let Some(hs) = headers {
        if hs.len() > 0 {
            let rest = hs.drop_last();
            let keep = |h: HeaderView| !dialog::is_system(h);
            lemma_of_kind_custom(Some(rest), kind);
            if keep(hs.last()) {
                header::lemma_of_kind_push(rest.filter(keep), hs.last(), kind);
            }
        }
    }
}

/// A request within a dialog bears the headers that the caller gives of every kind
/// that the dialog does not write, all of them and in their order. It tells the
/// Contact of this end and its name first, and both ends' identifiers unless the
/// caller gives them.
pub proof fn law_request_bears_the_given_headers(
    d: DialogView,
    ep: EndpointView,
    addrs: Seq<SipAddrView>,
    branch: Seq<char>,
    method: Method,
    cseq: Option<u32>,
    headers: Option<Seq<HeaderView>>,
    body: Seq<u8>,
    kind: HeaderKind,
)
    requires
        addrs.len() > 0,
        kind != HeaderKind::Via,
        kind != HeaderKind::CallId,
        kind != HeaderKind::From,
        kind != HeaderKind::To,
        kind != HeaderKind::CSeq,
        kind != HeaderKind::MaxForwards,
        kind != HeaderKind::ContentLength,
        kind != HeaderKind::Route,
    ensures
        ({
            let r = requests::next_request(d, ep, addrs, branch, method, cseq, headers, body).1;
            let given = match headers {
                Some(hs) => header::of_kind(hs, kind),
                None => Seq::empty(),
            };
            &&& r matches Ok(req)
            &&& kind != HeaderKind::Contact && kind != HeaderKind::SessionId && kind
                != HeaderKind::UserAgent ==> header::of_kind(req.headers, kind) == given
            &&& kind == HeaderKind::UserAgent ==> header::of_kind(req.headers, kind) == seq![
                HeaderView::UserAgent(ep.user_agent),
            ] + given
            &&& kind == HeaderKind::Contact ==> header::of_kind(req.headers, kind) == match
                d.local_contact {
                Some(u) => seq![
                    HeaderView::Contact(
                        FieldView::Typed(
                            NameAddrView { display_name: None, uri: u, params: Seq::empty() },
                        ),
                    ),
                ] + given,
                None => given,
            }
            &&& kind == HeaderKind::SessionId && (headers matches Some(hs) && header::has_kind(
                hs,
                HeaderKind::SessionId,
            )) ==> header::of_kind(req.headers, kind) == given
            &&& kind == HeaderKind::SessionId && leaves_out(headers, HeaderKind::SessionId) ==> (
            d.session_id matches Some(s) ==> {
                let other = match s.remote {
                    Some(q) => q,
                    None => "00000000000000000000000000000000"@,
                };
                session_id::is_uuid(s.local) && session_id::is_uuid(other) ==> header::of_kind(
                    req.headers,
                    kind,
                ) == seq![
                    HeaderView::SessionId(SessionIdView { local: s.local, remote: Some(other) }),
                ]
            })
        }),
{
    let names = requests::address_headers(d, ep.user_agent, number_of(d, method, cseq));
    lemma_of_kind_custom(headers, kind);
    lemma_of_kind_five(names, kind);
    lemma_of_kind_optional(requests::contact_header(d), kind);
    lemma_of_kind_optional(requests::request_session(d, headers), kind);
    lemma_of_kind_next(d, ep, addrs, branch, method, cseq, headers, body, kind);
    if leaves_out(headers, kind) {
        if let Some(hs) = headers {
            header::lemma_of_kind_none(hs, kind);
        }
    }
}

/// The Via of a request within a dialog names the first address of the transport
/// that the request goes out on, where that is known and not UDP, or else the
/// first address of all.
pub proof fn law_request_names_the_address_it_leaves_from(
    d: DialogView,
    ep: EndpointView,
    addrs: Seq<SipAddrView>,
    branch: Seq<char>,
    method: Method,
    cseq: Option<u32>,
    headers: Option<Seq<HeaderView>>,
    body: Seq<u8>,
    i: int,
)
    requires
        0 <= i < addrs.len(),
        ({
            let t = d.send_transport(ep);
            if t is None || t == Some(Transport::Udp) {
                i == 0
            } else {
                (addrs[i].transport == t || (i == 0 && forall|j: int|
                    0 <= j < addrs.len() ==> (#[trigger] addrs[j]).transport != t)) && forall|
                    j: int,
                |
                    0 <= j < i ==> (#[trigger] addrs[j]).transport != t
            }
        }),
    ensures
        ({
            let r = requests::next_request(d, ep, addrs, branch, method, cseq, headers, body).1;
            &&& r matches Ok(req)
            &&& header::of_kind(req.headers, HeaderKind::Via).len() == 1
            &&& header::of_kind(req.headers, HeaderKind::Via)[0] matches HeaderView::Via(
                FieldView::Typed(top),
            )
            &&& leaves_from(top, addrs[i], branch)
        }),
{
    if let Some(t) = d.send_transport(ep) {
        if t != Transport::Udp {
            let pick = |a: SipAddrView| dialog::addr_with(a, t);
            if addrs[i].transport == Some(t) {
                lists::law_first_of_is_the_first(addrs, i, pick);
            } else {
                lists::law_first_of_nothing(addrs, pick);
            }
        }
    }
    let top = requests::request_via(d, ep, addrs, branch)->Ok_0;
    lemma_custom_has_no_system(headers);
    lemma_of_kind_one(HeaderView::Via(FieldView::Typed(top)), HeaderKind::Via);
    lemma_of_kind_next(d, ep, addrs, branch, method, cseq, headers, body, HeaderKind::Via);
}

/// A request of the dialog goes out on the transport of the flow that was
/// recorded, where that is reliable and in use and there is no route to follow;
/// or else on the one of the outbound proxy; or else on the one that the first
/// route asks for; or else on the one that the peer's URI asks for. It is not
/// known beforehand where a locator is asked.
pub proof fn law_request_takes_the_recorded_flow(
    d: DialogView,
    ep: EndpointView,
    c: crate::transport::connection::SipConnectionView,
)
    ensures
        d.server_connection == Some(c) && d.route_set.len() == 0 && !(c is Udp)
            && !ep.transport_layer.inner.is_over(c) ==> d.affinity(ep) == Some(c)
            && d.send_transport(ep) == c.addr().transport,
        d.server_connection is None || d.route_set.len() > 0 || (d.server_connection == Some(c)
            && c is Udp) ==> {
            &&& d.affinity(ep) is None
            &&& ep.has_locator ==> d.send_transport(ep) is None
            &&& !ep.has_locator ==> (ep.transport_layer.outbound matches Some(o)
                ==> d.send_transport(ep) == o.transport)
            &&& !ep.has_locator && ep.transport_layer.outbound is None ==> {
                &&& d.route_set.len() == 0 ==> d.send_transport(ep) == uri::transport_in(
                    d.remote_uri.params,
                )
                &&& d.route_set.len() > 0 ==> (d.route_set[0] matches FieldView::Typed(r)
                    ==> d.send_transport(ep) == uri::transport_in(r.uri.params))
            }
        },
{
}

proof fn lemma_history_given(headers: Seq<HeaderView>, more: Seq<HeaderView>)
    ensures
        header::of_kind(responses::with_headers(headers, more), HeaderKind::HistoryInfo)
            == header::of_kind(headers, HeaderKind::HistoryInfo) + header::of_kind(
            more,
            HeaderKind::HistoryInfo,
        ),
    decreases more.len(),
{
    reveal(Seq::filter);
    let kind = HeaderKind::HistoryInfo;
    if more.len() > 0 {
        let rest = more.drop_last();
        let h = more.last();
        lemma_history_given(headers, rest);
        let before = responses::with_headers(headers, rest);
        header::lemma_of_kind_push(rest, h, kind);
        assert(rest.push(h) == more);
        match h {
            HeaderView::Other(name, _) => {
                lemma_of_kind_not_named(before, name, kind);
                header::lemma_of_kind_push(
                    before.filter(|x: HeaderView| responses::is_not_named(x, name)),
                    h,
                    kind,
                );
            },
            HeaderView::HistoryInfo(_) => {
                header::lemma_of_kind_push(before, h, kind);
            },
            _ => {
                header::lemma_of_kind_without(before, h.kind(), kind);
                header::lemma_of_kind_push(header::without(before, h.kind()), h, kind);
            },
        }
    }
}

/// The history that the caller tells takes the place of the request's, all of it
/// and in its order.
pub proof fn law_response_tells_the_given_history(
    d: DialogView,
    user_agent: Seq<char>,
    request: RequestView,
    status: StatusCode,
    given: Seq<HeaderView>,
    body: Seq<u8>,
)
    requires
        header::has_kind(given, HeaderKind::HistoryInfo),
    ensures
        header::of_kind(
            responses::response_in(d, user_agent, request, status, Some(given), body).headers,
            HeaderKind::HistoryInfo,
        ) == header::of_kind(given, HeaderKind::HistoryInfo),
{
    reveal(responses::response_in);
    let kind = HeaderKind::HistoryInfo;
    let own = responses::own_response_headers(d, request.headers, status, Some(given));
    let taken = lists::all_of(
        request.headers,
        |h: HeaderView| responses::taken_over(h, status, d.id.local_tag),
    );
    let contact = requests::optional(requests::contact_header(d));
    let session = requests::optional(responses::response_session(d, request.headers));
    lemma_of_kind_taken(request.headers, status, d.id.local_tag, kind);
    lemma_of_kind_optional(requests::contact_header(d), kind);
    lemma_of_kind_optional(responses::response_session(d, request.headers), kind);
    header::lemma_of_kind_add(taken, contact, kind);
    header::lemma_of_kind_add(taken + contact, session, kind);
    lemma_history_given(own, given);
    assert(header::of_kind(own, kind) == Seq::<HeaderView>::empty());
    lemma_of_kind_finished(
        responses::with_headers(own, given),
        HeaderView::ContentLength(build::length_of(body)),
        HeaderView::UserAgent(user_agent),
        kind,
    );
}

/// A header that has no kind of its own is told apart by its name: the last one
/// given stands in the response, and no other of its name does.
pub proof fn law_response_bears_a_named_header(
    d: DialogView,
    user_agent: Seq<char>,
    request: RequestView,
    status: StatusCode,
    given: Seq<HeaderView>,
    body: Seq<u8>,
    name: Seq<char>,
    value: Seq<char>,
)
    requires
        given.len() > 0,
        given.last() == HeaderView::Other(name, value),
    ensures
        ({
            let r = responses::response_in(d, user_agent, request, status, Some(given), body);
            &&& r.headers.contains(given.last())
            &&& forall|i: int|
                0 <= i < r.headers.len() ==> (#[trigger] r.headers[i] matches HeaderView::Other(
                    n,
                    _,
                ) && text::same_ignoring_case(n, name) ==> r.headers[i] == given.last())
        }),
{
    reveal(responses::response_in);
    let r = responses::response_in(d, user_agent, request, status, Some(given), body);
    let own = responses::own_response_headers(d, request.headers, status, Some(given));
    let before = responses::with_headers(own, given.drop_last());
    let keep = |x: HeaderView| responses::is_not_named(x, name);
    let all = before.filter(keep).push(given.last());
    assert(all == responses::with_headers(own, given));
    let no_length = |h: HeaderView| h.kind() != HeaderKind::ContentLength;
    let no_agent = |h: HeaderView| h.kind() != HeaderKind::UserAgent;
    let short = all.filter(no_length);
    let kept = short.filter(no_agent);
    lists::lemma_kept(all, no_length, all.len() - 1);
    let a = choose|a: int| 0 <= a < short.len() && short[a] == all[all.len() - 1];
    lists::lemma_kept(short, no_agent, a);
    let b = choose|b: int| 0 <= b < kept.len() && kept[b] == short[a];
    assert(r.headers[b] == given.last());
    assert forall|i: int| 0 <= i < r.headers.len() implies (
    #[trigger] r.headers[i] matches HeaderView::Other(n, _) && text::same_ignoring_case(n, name)
        ==> r.headers[i] == given.last()) by {
        if i < kept.len() {
            assert(r.headers[i] == kept[i]);
            lists::lemma_comes_from(short, no_agent, i);
            let j = choose|j: int| 0 <= j < short.len() && short[j] == kept[i];
            lists::lemma_comes_from(all, no_length, j);
            let k = choose|k: int| 0 <= k < all.len() && all[k] == short[j];
            if k < all.len() - 1 {
                before.lemma_filter_pred(keep, k);
            }
        }
    }
}

proof fn lemma_to_taken(headers: Seq<HeaderView>, status: StatusCode, tag: Seq<char>)
    ensures
        ({
            let f = |h: HeaderView| responses::taken_over(h, status, tag);
            header::of_kind(lists::all_of(headers, f), HeaderKind::To) == lists::all_of(
                header::of_kind(headers, HeaderKind::To),
                f,
            )
        }),
    decreases headers.len(),
{
    reveal(Seq::filter);
    let kind = HeaderKind::To;
    let f = |h: HeaderView| responses::taken_over(h, status, tag);
    if headers.len() > 0 {
        let rest = headers.drop_last();
        let h = headers.last();
        lemma_to_taken(rest, status, tag);
        header::lemma_of_kind_push(rest, h, kind);
        assert(rest.push(h) == headers);
        if let Some(x) = f(h) {
            header::lemma_of_kind_push(lists::all_of(rest, f), x, kind);
        }
        if h.kind() == kind {
            assert(header::of_kind(headers, kind).drop_last() == header::of_kind(rest, kind));
        }
    }
}

/// The To of a response is the request's, to which the dialog's own tag is added
/// where it has none, except in a 100.
pub proof fn law_response_keeps_the_to(
    d: DialogView,
    user_agent: Seq<char>,
    request: RequestView,
    status: StatusCode,
    headers: Option<Seq<HeaderView>>,
    body: Seq<u8>,
    to: NameAddrView,
)
    requires
        headers matches Some(hs) ==> !header::has_kind(hs, HeaderKind::To),
        header::of_kind(request.headers, HeaderKind::To) == seq![
            HeaderView::To(FieldView::Typed(to)),
        ],
    ensures
        ({
            let r = responses::response_in(d, user_agent, request, status, headers, body);
            header::of_kind(r.headers, HeaderKind::To) == seq![
                HeaderView::To(
                    FieldView::Typed(
                        if status == StatusCode::Trying || to.tag() is Some {
                            to
                        } else {
                            NameAddrView {
                                params: to.params.push(ParamView::Tag(d.id.local_tag)),
                                ..to
                            }
                        },
                    ),
                ),
            ]
        }),
{
    let kind = HeaderKind::To;
    let f = |h: HeaderView| responses::taken_over(h, status, d.id.local_tag);
    let taken = lists::all_of(request.headers, f);
    let contact = requests::optional(requests::contact_header(d));
    let session = requests::optional(responses::response_session(d, request.headers));
    let history = lists::all_of(request.headers, |h: HeaderView| responses::as_history(h));
    lemma_to_taken(request.headers, status, d.id.local_tag);
    lists::law_all_of_keeps_the_order(
        Seq::empty(),
        seq![HeaderView::To(FieldView::Typed(to))],
        f,
    );
    lemma_of_kind_optional(requests::contact_header(d), kind);
    lemma_of_kind_optional(responses::response_session(d, request.headers), kind);
    lemma_of_kind_history(request.headers, kind);
    header::lemma_of_kind_add(taken, contact, kind);
    header::lemma_of_kind_add(taken + contact, session, kind);
    header::lemma_of_kind_add(taken + contact + session, history, kind);
    lemma_of_kind_response(d, user_agent, request, status, headers, body, kind);
}

}
