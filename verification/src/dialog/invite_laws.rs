//! What the INVITE of a call says.

use super::dialog;
use super::invitation;
use super::invitation::InviteOptionView;
use super::message_laws;
use crate::error::ErrorView;
use crate::lists;
use crate::sip::basic::{Method, Scheme, Transport, Version};
use crate::sip::header;
use crate::sip::header::{CSeq, FieldView, HeaderKind, HeaderView};
use crate::sip::message;
use crate::sip::message::RequestView;
use crate::sip::session_id;
use crate::sip::session_id::SessionIdView;
use crate::sip::uri;
use crate::sip::uri::{NameAddrView, ParamView};
use crate::text;
use crate::transaction::endpoint;
use crate::transaction::endpoint::EndpointView;
use crate::transaction::message as build;
use crate::transport::sip_addr::SipAddrView;
use vstd::prelude::*;

verus! {

/// The transport that the caller asks for: the one of the destination, or else
/// the one of the callee's URI.
pub open spec fn asked_transport(opt: InviteOptionView) -> Option<Transport> {
    if opt.destination is Some && opt.destination->0.transport is Some {
        opt.destination->0.transport
    } else {
        uri::transport_in(opt.callee.params)
    }
}

/// The address at `i` is the first one of the transport `t`.
pub open spec fn is_first_of_transport(addrs: Seq<SipAddrView>, t: Transport, i: int) -> bool {
    &&& 0 <= i < addrs.len()
    &&& addrs[i].transport == Some(t)
    &&& forall|j: int| 0 <= j < i ==> (#[trigger] addrs[j]).transport != Some(t)
}

/// No address is chosen: the caller asks for UDP or nothing, or there is no address
/// of the transport asked for.
pub open spec fn chooses_none(opt: InviteOptionView, addrs: Seq<SipAddrView>) -> bool {
    let t = asked_transport(opt);
    t is None || t == Some(Transport::Udp) || forall|j: int|
        0 <= j < addrs.len() ==> (#[trigger] addrs[j]).transport != t
}

/// The address at `i` is chosen: the first one of the transport that the caller
/// asks for, which is not UDP.
pub open spec fn chooses(opt: InviteOptionView, addrs: Seq<SipAddrView>, i: int) -> bool {
    asked_transport(opt) matches Some(t) && t != Transport::Udp && is_first_of_transport(
        addrs,
        t,
        i,
    )
}

proof fn lemma_chosen(opt: InviteOptionView, addrs: Seq<SipAddrView>, i: int)
    ensures
        chooses(opt, addrs, i) ==> invitation::invite_addr(opt, addrs) == Some(addrs[i]),
        chooses_none(opt, addrs) ==> invitation::invite_addr(opt, addrs) is None,
{
    if let Some(t) = asked_transport(opt) {
        let pick = |a: SipAddrView| dialog::addr_with(a, t);
        if chooses(opt, addrs, i) {
            lists::law_first_of_is_the_first(addrs, i, pick);
        } else if chooses_none(opt, addrs) && t != Transport::Udp {
            lists::law_first_of_nothing(addrs, pick);
        }
    }
}

spec fn invite_base(
    ep: EndpointView,
    opt: InviteOptionView,
    addrs: Seq<SipAddrView>,
    seq: u32,
    tag: Seq<char>,
    branch: Seq<char>,
    call_id: Seq<char>,
) -> Seq<HeaderView> {
    build::request_with(
        Method::Invite,
        opt.callee,
        endpoint::via_for(
            match invitation::invite_addr(opt, addrs) {
                Some(a) => a,
                None => addrs[0],
            },
            ParamView::Branch(branch),
        ),
        invitation::invite_from(opt, tag),
        uri::plain_addr(opt.callee),
        seq,
        match opt.call_id {
            Some(c) => c,
            None => call_id,
        },
        ep.user_agent,
    ).headers
}

proof fn lemma_of_kind_given(headers: Seq<HeaderView>, given: Seq<HeaderView>, kind: HeaderKind)
    requires
        kind != HeaderKind::MaxForwards,
    ensures
        header::of_kind(invitation::with_all_given(headers, given), kind) == header::of_kind(
            headers,
            kind,
        ) + header::of_kind(given, kind),
    decreases given.len(),
{
    reveal(Seq::filter);
    if given.len() > 0 {
        let rest = given.drop_last();
        lemma_of_kind_given(headers, rest, kind);
        let before = invitation::with_all_given(headers, rest);
        invitation::lemma_of_kind_unique(before, given.last(), kind);
        header::lemma_of_kind_push(before, given.last(), kind);
    }
}

proof fn lemma_of_kind_forwards(headers: Seq<HeaderView>, given: Seq<HeaderView>)
    ensures
        ({
            let found = header::of_kind(
                invitation::with_all_given(headers, given),
                HeaderKind::MaxForwards,
            );
            let told = header::of_kind(given, HeaderKind::MaxForwards);
            found == if told.len() > 0 {
                seq![told.last()]
            } else {
                header::of_kind(headers, HeaderKind::MaxForwards)
            }
        }),
    decreases given.len(),
{
    reveal(Seq::filter);
    if given.len() > 0 {
        let rest = given.drop_last();
        lemma_of_kind_forwards(headers, rest);
        let before = invitation::with_all_given(headers, rest);
        invitation::lemma_of_kind_unique(before, given.last(), HeaderKind::MaxForwards);
        header::lemma_of_kind_push(before, given.last(), HeaderKind::MaxForwards);
    }
}

/// The headers of one kind of an INVITE: those that it begins with, the Session-ID
/// if one is asked for, and those that the caller gives.
proof fn lemma_of_kind_invite(
    ep: EndpointView,
    opt: InviteOptionView,
    addrs: Seq<SipAddrView>,
    seq: u32,
    tag: Seq<char>,
    branch: Seq<char>,
    call_id: Seq<char>,
    req: RequestView,
    kind: HeaderKind,
)
    requires
        invitation::invite_request(ep, opt, addrs, seq, tag, branch, call_id) == Ok::<
            _,
            ErrorView,
        >(req),
        kind != HeaderKind::MaxForwards,
    ensures
        ({
            let start = header::of_kind(
                invitation::invite_start(
                    invite_base(ep, opt, addrs, seq, tag, branch, call_id),
                    opt,
                    invitation::invite_addr(opt, addrs),
                    ep.option.history_info_enabled,
                ),
                kind,
            );
            let given = match opt.headers {
                Some(more) => header::of_kind(more, kind),
                None => Seq::empty(),
            };
            &&& kind == HeaderKind::SessionId ==> (opt.session_id matches Some(raw) ==> {
                &&& session_id::is_uuid(session_id::undashed(raw))
                &&& header::of_kind(req.headers, kind) == seq![
                    HeaderView::SessionId(
                        SessionIdView {
                            local: session_id::undashed(raw),
                            remote: Some(session_id::nil_uuid()),
                        },
                    ),
                ] + given
            })
            &&& !(opt.session_id is Some && kind == HeaderKind::SessionId) ==> header::of_kind(
                req.headers,
                kind,
            ) == start + given
        }),
{
    reveal(invitation::invite_request);
    let start = invitation::invite_start(
        invite_base(ep, opt, addrs, seq, tag, branch, call_id),
        opt,
        invitation::invite_addr(opt, addrs),
        ep.option.history_info_enabled,
    );
    let named = invitation::with_session(start, opt.session_id)->Ok_0;
    if let Some(raw) = opt.session_id {
        invitation::lemma_of_kind_unique(
            start,
            HeaderView::SessionId(
                SessionIdView {
                    local: session_id::undashed(raw),
                    remote: Some(session_id::nil_uuid()),
                },
            ),
            kind,
        );
    }
    if let Some(more) = opt.headers {
        lemma_of_kind_given(named, more, kind);
    }
}

/// The INVITE goes to the callee, without a body yet. Its Contact is the caller's
/// as it was given where no address is chosen. Where one is, the Contact has the
/// caller's user at the host and port of that address; it asks for the transport
/// of that address unless it asks for one already, and is a `sips` URI for TLS.
pub proof fn law_invite_contact_is_the_callers(
    ep: EndpointView,
    opt: InviteOptionView,
    addrs: Seq<SipAddrView>,
    seq: u32,
    tag: Seq<char>,
    branch: Seq<char>,
    call_id: Seq<char>,
    req: RequestView,
    i: int,
)
    requires
        invitation::invite_request(ep, opt, addrs, seq, tag, branch, call_id) == Ok::<
            _,
            ErrorView,
        >(req),
        message_laws::leaves_out(opt.headers, HeaderKind::Contact),
    ensures
        req.method == Method::Invite,
        req.uri == opt.callee,
        req.body.len() == 0,
        req.version == Version::V2,
        header::of_kind(req.headers, HeaderKind::Contact).len() == 1,
        ({
            &&& header::of_kind(req.headers, HeaderKind::Contact)[0] matches HeaderView::Contact(
                FieldView::Typed(c),
            )
            &&& c.display_name is None && c.params.len() == 0
            &&& chooses_none(opt, addrs) ==> c.uri == opt.contact
            &&& chooses(opt, addrs, i) ==> {
                &&& c.uri.user == opt.contact.user
                &&& c.uri.host_with_port == addrs[i].addr
                &&& c.uri.scheme == if addrs[i].transport == Some(Transport::Tls) {
                    Some(Scheme::Sips)
                } else {
                    opt.contact.scheme
                }
                &&& uri::transport_in(opt.contact.params) is Some ==> c.uri.params
                    == opt.contact.params
                &&& uri::transport_in(opt.contact.params) is None ==> c.uri.params
                    == opt.contact.params.push(ParamView::Transport(asked_transport(opt)->0))
            }
        }),
{
    reveal(invitation::invite_request);
    reveal(build::request_with);
    lemma_chosen(opt, addrs, i);
    lemma_of_kind_invite(
        ep,
        opt,
        addrs,
        seq,
        tag,
        branch,
        call_id,
        req,
        HeaderKind::Contact,
    );
    invitation::lemma_invite_start_kinds(
        invite_base(ep, opt, addrs, seq, tag, branch, call_id),
        opt,
        invitation::invite_addr(opt, addrs),
        ep.option.history_info_enabled,
        HeaderKind::Contact,
    );
    if let Some(more) = opt.headers {
        header::lemma_of_kind_none(more, HeaderKind::Contact);
    }
}

proof fn lemma_of_kind_base(
    ep: EndpointView,
    opt: InviteOptionView,
    addrs: Seq<SipAddrView>,
    seq: u32,
    tag: Seq<char>,
    branch: Seq<char>,
    call_id: Seq<char>,
    req: RequestView,
    i: int,
    kind: HeaderKind,
)
    requires
        invitation::invite_request(ep, opt, addrs, seq, tag, branch, call_id) == Ok::<
            _,
            ErrorView,
        >(req),
        message_laws::leaves_out(opt.headers, kind),
        0 <= i < 7,
        i == 0 ==> kind == HeaderKind::Via,
        i == 1 ==> kind == HeaderKind::CallId,
        i == 2 ==> kind == HeaderKind::From,
        i == 3 ==> kind == HeaderKind::To,
        i == 4 ==> kind == HeaderKind::CSeq,
        i == 5 ==> kind == HeaderKind::MaxForwards,
        i == 6 ==> kind == HeaderKind::UserAgent,
    ensures
        header::of_kind(req.headers, kind) == seq![
            invite_base(ep, opt, addrs, seq, tag, branch, call_id)[i],
        ],
{
    reveal(build::request_with);
    reveal(invitation::invite_request);
    let base = invite_base(ep, opt, addrs, seq, tag, branch, call_id);
    let addr = invitation::invite_addr(opt, addrs);
    let histinfo = ep.option.history_info_enabled;
    let start = invitation::invite_start(base, opt, addr, histinfo);
    invitation::lemma_invite_start_kinds(base, opt, addr, histinfo, kind);
    header::lemma_of_kind_once(base, i);
    if let Some(more) = opt.headers {
        header::lemma_of_kind_none(more, kind);
    }
    if kind == HeaderKind::MaxForwards {
        let named = invitation::with_session(start, opt.session_id)->Ok_0;
        if let Some(raw) = opt.session_id {
            invitation::lemma_of_kind_unique(
                start,
                HeaderView::SessionId(
                    SessionIdView {
                        local: session_id::undashed(raw),
                        remote: Some(session_id::nil_uuid()),
                    },
                ),
                kind,
            );
        }
        if let Some(more) = opt.headers {
            lemma_of_kind_forwards(named, more);
        }
    } else {
        lemma_of_kind_invite(ep, opt, addrs, seq, tag, branch, call_id, req, kind);
    }
}

/// The Via of the INVITE names the chosen address, or else the first one, and bears
/// the new branch.
pub proof fn law_invite_names_the_address_it_leaves_from(
    ep: EndpointView,
    opt: InviteOptionView,
    addrs: Seq<SipAddrView>,
    seq: u32,
    tag: Seq<char>,
    branch: Seq<char>,
    call_id: Seq<char>,
    req: RequestView,
    i: int,
)
    requires
        invitation::invite_request(ep, opt, addrs, seq, tag, branch, call_id) == Ok::<
            _,
            ErrorView,
        >(req),
        message_laws::leaves_out(opt.headers, HeaderKind::Via),
        chooses(opt, addrs, i) || (i == 0 && chooses_none(opt, addrs)),
    ensures
        header::of_kind(req.headers, HeaderKind::Via).len() == 1,
        ({
            &&& header::of_kind(req.headers, HeaderKind::Via)[0] matches HeaderView::Via(
                FieldView::Typed(top),
            )
            &&& message_laws::leaves_from(top, addrs[i], branch)
        }),
{
    reveal(build::request_with);
    lemma_chosen(opt, addrs, i);
    lemma_of_kind_base(ep, opt, addrs, seq, tag, branch, call_id, req, 0, HeaderKind::Via);
}

/// The INVITE comes from the caller, with the new tag in the place of any other,
/// and goes to the callee, whose tag is not known. It bears the caller's Call-ID,
/// or else the new one, and the number asked for; it may be forwarded 70 times; and
/// it names this end.
pub proof fn law_invite_names_both_ends(
    ep: EndpointView,
    opt: InviteOptionView,
    addrs: Seq<SipAddrView>,
    seq: u32,
    tag: Seq<char>,
    branch: Seq<char>,
    call_id: Seq<char>,
    req: RequestView,
)
    requires
        invitation::invite_request(ep, opt, addrs, seq, tag, branch, call_id) == Ok::<
            _,
            ErrorView,
        >(req),
    ensures
        message_laws::leaves_out(opt.headers, HeaderKind::From) ==> header::of_kind(
            req.headers,
            HeaderKind::From,
        ) == seq![
            HeaderView::From(
                FieldView::Typed(
                    NameAddrView {
                        display_name: opt.caller_display_name,
                        uri: opt.caller,
                        params: opt.caller_params.filter(|p: ParamView| !(p is Tag)).push(
                            ParamView::Tag(tag),
                        ),
                    },
                ),
            ),
        ],
        message_laws::leaves_out(opt.headers, HeaderKind::To) ==> header::of_kind(
            req.headers,
            HeaderKind::To,
        ) == seq![
            HeaderView::To(
                FieldView::Typed(
                    NameAddrView { display_name: None, uri: opt.callee, params: Seq::empty() },
                ),
            ),
        ],
        message_laws::leaves_out(opt.headers, HeaderKind::CallId) ==> header::of_kind(
            req.headers,
            HeaderKind::CallId,
        ) == seq![
            HeaderView::CallId(
                if opt.call_id is Some {
                    opt.call_id->0
                } else {
                    call_id
                },
            ),
        ],
        message_laws::leaves_out(opt.headers, HeaderKind::CSeq) ==> header::of_kind(
            req.headers,
            HeaderKind::CSeq,
        ) == seq![HeaderView::CSeq(FieldView::Typed(CSeq { seq, method: Method::Invite }))],
        message_laws::leaves_out(opt.headers, HeaderKind::MaxForwards) ==> header::of_kind(
            req.headers,
            HeaderKind::MaxForwards,
        ) == seq![HeaderView::MaxForwards(70)],
        message_laws::leaves_out(opt.headers, HeaderKind::UserAgent) ==> header::of_kind(
            req.headers,
            HeaderKind::UserAgent,
        ) == seq![HeaderView::UserAgent(ep.user_agent)],
{
    reveal(build::request_with);
    if message_laws::leaves_out(opt.headers, HeaderKind::From) {
        lemma_of_kind_base(ep, opt, addrs, seq, tag, branch, call_id, req, 2, HeaderKind::From);
        assert(uri::without_tags(opt.caller_params) == opt.caller_params.filter(
            |p: ParamView| !(p is Tag),
        ));
    }
    if message_laws::leaves_out(opt.headers, HeaderKind::To) {
        lemma_of_kind_base(ep, opt, addrs, seq, tag, branch, call_id, req, 3, HeaderKind::To);
    }
    if message_laws::leaves_out(opt.headers, HeaderKind::CallId) {
        lemma_of_kind_base(
            ep,
            opt,
            addrs,
            seq,
            tag,
            branch,
            call_id,
            req,
            1,
            HeaderKind::CallId,
        );
    }
    if message_laws::leaves_out(opt.headers, HeaderKind::CSeq) {
        lemma_of_kind_base(ep, opt, addrs, seq, tag, branch, call_id, req, 4, HeaderKind::CSeq);
    }
    if message_laws::leaves_out(opt.headers, HeaderKind::MaxForwards) {
        lemma_of_kind_base(
            ep,
            opt,
            addrs,
            seq,
            tag,
            branch,
            call_id,
            req,
            5,
            HeaderKind::MaxForwards,
        );
    }
    if message_laws::leaves_out(opt.headers, HeaderKind::UserAgent) {
        lemma_of_kind_base(
            ep,
            opt,
            addrs,
            seq,
            tag,
            branch,
            call_id,
            req,
            6,
            HeaderKind::UserAgent,
        );
    }
}

/// The INVITE follows the caller's routes in their order, in front of the routes
/// among the headers given.
pub proof fn law_invite_follows_the_routes(
    ep: EndpointView,
    opt: InviteOptionView,
    addrs: Seq<SipAddrView>,
    seq: u32,
    tag: Seq<char>,
    branch: Seq<char>,
    call_id: Seq<char>,
    req: RequestView,
)
    requires
        invitation::invite_request(ep, opt, addrs, seq, tag, branch, call_id) == Ok::<
            _,
            ErrorView,
        >(req),
    ensures
        ({
            let routes = header::of_kind(req.headers, HeaderKind::Route);
            routes.len() >= opt.route_set.len() && forall|i: int|
                0 <= i < opt.route_set.len() ==> #[trigger] routes[i] == HeaderView::Route(
                    FieldView::Typed(opt.route_set[i]),
                )
        }),
        message_laws::leaves_out(opt.headers, HeaderKind::Route) ==> header::of_kind(
            req.headers,
            HeaderKind::Route,
        ).len() == opt.route_set.len(),
{
    let base = invite_base(ep, opt, addrs, seq, tag, branch, call_id);
    lemma_base_has_none(ep, opt, addrs, seq, tag, branch, call_id, HeaderKind::Route);
    lemma_of_kind_invite(ep, opt, addrs, seq, tag, branch, call_id, req, HeaderKind::Route);
    lemma_routes_at_the_start(
        base,
        opt,
        invitation::invite_addr(opt, addrs),
        ep.option.history_info_enabled,
    );
    if let Some(more) = opt.headers {
        if message_laws::leaves_out(opt.headers, HeaderKind::Route) {
            header::lemma_of_kind_none(more, HeaderKind::Route);
        }
    }
}

proof fn lemma_base_has_none(
    ep: EndpointView,
    opt: InviteOptionView,
    addrs: Seq<SipAddrView>,
    seq: u32,
    tag: Seq<char>,
    branch: Seq<char>,
    call_id: Seq<char>,
    kind: HeaderKind,
)
    requires
        kind == HeaderKind::Route || kind == HeaderKind::SessionId || kind
            == HeaderKind::Supported,
    ensures
        !header::has_kind(invite_base(ep, opt, addrs, seq, tag, branch, call_id), kind),
{
    reveal(build::request_with);
    let base = invite_base(ep, opt, addrs, seq, tag, branch, call_id);
    assert forall|k: int| 0 <= k < base.len() implies (#[trigger] base[k]).kind() != kind by {
        assert(k == 0 || k == 1 || k == 2 || k == 3 || k == 4 || k == 5 || k == 6);
    }
}

/// The INVITE says what its body is, `application/sdp` unless told otherwise.
pub proof fn law_invite_says_what_its_body_is(
    ep: EndpointView,
    opt: InviteOptionView,
    addrs: Seq<SipAddrView>,
    seq: u32,
    tag: Seq<char>,
    branch: Seq<char>,
    call_id: Seq<char>,
    req: RequestView,
)
    requires
        invitation::invite_request(ep, opt, addrs, seq, tag, branch, call_id) == Ok::<
            _,
            ErrorView,
        >(req),
        message_laws::leaves_out(opt.headers, HeaderKind::ContentType),
    ensures
        header::of_kind(req.headers, HeaderKind::ContentType) == seq![
            HeaderView::ContentType(
                if opt.content_type is Some {
                    opt.content_type->0
                } else {
                    "application/sdp"@
                },
            ),
        ],
{
    let base = invite_base(ep, opt, addrs, seq, tag, branch, call_id);
    let addr = invitation::invite_addr(opt, addrs);
    let histinfo = ep.option.history_info_enabled;
    lemma_of_kind_invite(ep, opt, addrs, seq, tag, branch, call_id, req, HeaderKind::ContentType);
    invitation::lemma_invite_start_kinds(base, opt, addr, histinfo, HeaderKind::ContentType);
    if let Some(more) = opt.headers {
        header::lemma_of_kind_none(more, HeaderKind::ContentType);
    }
}

/// The INVITE names the caller by the identifier asked for, without dashes and in
/// lower case, and the callee by the nil identifier; it names neither where none is
/// asked for.
pub proof fn law_invite_names_the_session(
    ep: EndpointView,
    opt: InviteOptionView,
    addrs: Seq<SipAddrView>,
    seq: u32,
    tag: Seq<char>,
    branch: Seq<char>,
    call_id: Seq<char>,
    req: RequestView,
)
    requires
        invitation::invite_request(ep, opt, addrs, seq, tag, branch, call_id) == Ok::<
            _,
            ErrorView,
        >(req),
        message_laws::leaves_out(opt.headers, HeaderKind::SessionId),
    ensures
        header::of_kind(req.headers, HeaderKind::SessionId) == match opt.session_id {
            Some(raw) => seq![
                HeaderView::SessionId(
                    SessionIdView {
                        local: raw.filter(|c: char| c != '-').map_values(
                            |c: char| text::ascii_lower(c),
                        ),
                        remote: Some("00000000000000000000000000000000"@),
                    },
                ),
            ],
            None => Seq::empty(),
        },
{
    let base = invite_base(ep, opt, addrs, seq, tag, branch, call_id);
    let addr = invitation::invite_addr(opt, addrs);
    let histinfo = ep.option.history_info_enabled;
    lemma_of_kind_invite(ep, opt, addrs, seq, tag, branch, call_id, req, HeaderKind::SessionId);
    invitation::lemma_invite_start_kinds(base, opt, addr, histinfo, HeaderKind::SessionId);
    lemma_base_has_none(ep, opt, addrs, seq, tag, branch, call_id, HeaderKind::SessionId);
    header::lemma_of_kind_none(base, HeaderKind::SessionId);
    if let Some(more) = opt.headers {
        header::lemma_of_kind_none(more, HeaderKind::SessionId);
    }
}

proof fn lemma_routes_at_the_start(
    base: Seq<HeaderView>,
    opt: InviteOptionView,
    addr: Option<SipAddrView>,
    histinfo: bool,
)
    requires
        !header::has_kind(base, HeaderKind::Route),
    ensures
        header::of_kind(invitation::invite_start(base, opt, addr, histinfo), HeaderKind::Route)
            == opt.route_set.map_values(|r: NameAddrView| invitation::typed_route(r)),
{
    let kind = HeaderKind::Route;
    let routes = opt.route_set.map_values(|r: NameAddrView| invitation::typed_route(r));
    header::lemma_of_kind_add(base, routes, kind);
    header::lemma_of_kind_none(base, kind);
    header::lemma_of_kind_all(routes, kind);
    assert(Seq::<HeaderView>::empty() + routes == routes);
    lemma_start_adds(base + routes, opt, addr, histinfo, kind);
}

/// What comes behind the routes of the INVITE up to the Session-ID.
spec fn start_behind(
    routed: Seq<HeaderView>,
    opt: InviteOptionView,
    addr: Option<SipAddrView>,
    histinfo: bool,
) -> Seq<HeaderView> {
    let contact = HeaderView::Contact(
        FieldView::Typed(uri::plain_addr(invitation::invite_contact(opt, addr))),
    );
    let content = HeaderView::ContentType(
        match opt.content_type {
            Some(t) => t,
            None => "application/sdp"@,
        },
    );
    let typed = header::unique_pushed(header::unique_pushed(routed, contact), content);
    let reliable = if opt.support_prack {
        header::unique_pushed(typed, HeaderView::Supported("100rel"@))
    } else {
        typed
    };
    invitation::with_histinfo(reliable, opt.headers, histinfo)
}

proof fn lemma_start_adds(
    routed: Seq<HeaderView>,
    opt: InviteOptionView,
    addr: Option<SipAddrView>,
    histinfo: bool,
    kind: HeaderKind,
)
    requires
        kind != HeaderKind::Contact,
        kind != HeaderKind::ContentType,
        kind != HeaderKind::Supported,
    ensures
        header::of_kind(start_behind(routed, opt, addr, histinfo), kind) == header::of_kind(
            routed,
            kind,
        ),
{
    let contact = HeaderView::Contact(
        FieldView::Typed(uri::plain_addr(invitation::invite_contact(opt, addr))),
    );
    let content = HeaderView::ContentType(
        match opt.content_type {
            Some(t) => t,
            None => "application/sdp"@,
        },
    );
    invitation::lemma_of_kind_unique(routed, contact, kind);
    let with_contact = header::unique_pushed(routed, contact);
    invitation::lemma_of_kind_unique(with_contact, content, kind);
    let typed = header::unique_pushed(with_contact, content);
    let reliable = HeaderView::Supported("100rel"@);
    invitation::lemma_of_kind_unique(typed, reliable, kind);
    let before = if opt.support_prack {
        header::unique_pushed(typed, reliable)
    } else {
        typed
    };
    header::lemma_of_kind_push(before, HeaderView::Supported("histinfo"@), kind);
}

/// The headers that the caller gives stand in the INVITE behind its own of their
/// kind, all of them and in their order. Of Max-Forwards only the last one given
/// stands.
pub proof fn law_invite_bears_the_given_headers(
    ep: EndpointView,
    opt: InviteOptionView,
    addrs: Seq<SipAddrView>,
    seq: u32,
    tag: Seq<char>,
    branch: Seq<char>,
    call_id: Seq<char>,
    req: RequestView,
    more: Seq<HeaderView>,
    kind: HeaderKind,
)
    requires
        invitation::invite_request(ep, opt, addrs, seq, tag, branch, call_id) == Ok::<
            _,
            ErrorView,
        >(req),
        opt.headers == Some(more),
    ensures
        ({
            let found = header::of_kind(req.headers, kind);
            let given = header::of_kind(more, kind);
            &&& kind != HeaderKind::MaxForwards ==> found.len() >= given.len() && found.skip(
                found.len() - given.len(),
            ) == given
            &&& kind == HeaderKind::MaxForwards && given.len() > 0 ==> found == seq![given.last()]
        }),
{
    if kind == HeaderKind::MaxForwards {
        reveal(invitation::invite_request);
        let start = invitation::invite_start(
            invite_base(ep, opt, addrs, seq, tag, branch, call_id),
            opt,
            invitation::invite_addr(opt, addrs),
            ep.option.history_info_enabled,
        );
        lemma_of_kind_forwards(invitation::with_session(start, opt.session_id)->Ok_0, more);
    } else {
        lemma_of_kind_invite(ep, opt, addrs, seq, tag, branch, call_id, req, kind);
        let found = header::of_kind(req.headers, kind);
        let given = header::of_kind(more, kind);
        assert(found.skip(found.len() - given.len()) == given);
    }
}

/// The INVITE says that it understands reliable provisional responses if and only
/// if that is asked for, and History-Info if and only if the endpoint does.
pub proof fn law_invite_says_what_is_supported(
    ep: EndpointView,
    opt: InviteOptionView,
    addrs: Seq<SipAddrView>,
    seq: u32,
    tag: Seq<char>,
    branch: Seq<char>,
    call_id: Seq<char>,
    req: RequestView,
)
    requires
        invitation::invite_request(ep, opt, addrs, seq, tag, branch, call_id) == Ok::<
            _,
            ErrorView,
        >(req),
        message_laws::leaves_out(opt.headers, HeaderKind::Supported),
    ensures
        ({
            let reliable = if opt.support_prack {
                seq![HeaderView::Supported("100rel"@)]
            } else {
                Seq::empty()
            };
            header::of_kind(req.headers, HeaderKind::Supported)
                == if ep.option.history_info_enabled {
                reliable.push(HeaderView::Supported("histinfo"@))
            } else {
                reliable
            }
        }),
{
    reveal(build::request_with);
    let kind = HeaderKind::Supported;
    let base = invite_base(ep, opt, addrs, seq, tag, branch, call_id);
    let addr = invitation::invite_addr(opt, addrs);
    lemma_of_kind_invite(ep, opt, addrs, seq, tag, branch, call_id, req, kind);
    if let Some(more) = opt.headers {
        header::lemma_of_kind_none(more, kind);
        assert(!message::headers_list(more, kind, "histinfo"@));
    }
    let routes = opt.route_set.map_values(|r: NameAddrView| invitation::typed_route(r));
    let routed = base + routes;
    header::lemma_of_kind_add(base, routes, kind);
    header::lemma_of_kind_none(base, kind);
    header::lemma_of_kind_none(routes, kind);
    let contact = HeaderView::Contact(
        FieldView::Typed(uri::plain_addr(invitation::invite_contact(opt, addr))),
    );
    let content = HeaderView::ContentType(
        match opt.content_type {
            Some(t) => t,
            None => "application/sdp"@,
        },
    );
    invitation::lemma_of_kind_unique(routed, contact, kind);
    let with_contact = header::unique_pushed(routed, contact);
    invitation::lemma_of_kind_unique(with_contact, content, kind);
    let typed = header::unique_pushed(with_contact, content);
    let reliable = HeaderView::Supported("100rel"@);
    invitation::lemma_of_kind_unique(typed, reliable, kind);
    let before = if opt.support_prack {
        header::unique_pushed(typed, reliable)
    } else {
        typed
    };
    header::lemma_of_kind_push(before, HeaderView::Supported("histinfo"@), kind);
    lemma_not_said(before, reliable);
}

proof fn lemma_not_said(headers: Seq<HeaderView>, reliable: HeaderView)
    requires
        reliable == HeaderView::Supported("100rel"@),
        header::of_kind(headers, HeaderKind::Supported) == seq![reliable] || header::of_kind(
            headers,
            HeaderKind::Supported,
        ) == Seq::<HeaderView>::empty(),
    ensures
        !message::headers_list(headers, HeaderKind::Supported, "histinfo"@),
{
    let kind = HeaderKind::Supported;
    let is_kind = |h: HeaderView| h.kind() == kind;
    assert forall|i: int| 0 <= i < headers.len() implies !#[trigger] message::header_lists(
        headers[i],
        kind,
        "histinfo"@,
    ) by {
        if headers[i].kind() == kind {
            lists::lemma_kept(headers, is_kind, i);
            assert(headers.filter(is_kind).contains(headers[i]));
            assert(headers[i] == reliable);
            reveal_strlit("100rel");
            reveal_strlit("histinfo");
            assert forall|from: int, to: int| !#[trigger] message::token_between(
                "100rel"@,
                "histinfo"@,
                from,
                to,
            ) by {
                if 0 <= from <= to <= 6 {
                    assert("100rel"@.subrange(from, to).len() <= 6);
                }
            }
        }
    }
}

/// The caller's identifier has to be one, and the endpoint has to have an address;
/// else there is no INVITE.
pub proof fn law_invite_is_refused(
    ep: EndpointView,
    opt: InviteOptionView,
    addrs: Seq<SipAddrView>,
    seq: u32,
    tag: Seq<char>,
    branch: Seq<char>,
    call_id: Seq<char>,
)
    ensures
        ({
            let r = invitation::invite_request(ep, opt, addrs, seq, tag, branch, call_id);
            let named = opt.session_id matches Some(raw) ==> session_id::is_uuid(
                raw.filter(|c: char| c != '-').map_values(|c: char| text::ascii_lower(c)),
            );
            &&& r is Ok <==> addrs.len() > 0 && named
            &&& addrs.len() == 0 ==> r == Err::<RequestView, _>(
                ErrorView::EndpointError("not sipaddrs"@),
            )
            &&& addrs.len() > 0 && !named ==> r == Err::<RequestView, _>(
                ErrorView::InvalidSessionId,
            )
        }),
{
    reveal(invitation::invite_request);
    if addrs.len() == 0 {
        lemma_chosen(opt, addrs, 0);
    }
}

/// The offer is the body of the INVITE, whose length it tells, once; the rest of
/// the INVITE stays.
pub proof fn law_invite_carries_the_offer(
    req: RequestView,
    offer: Option<Seq<u8>>,
    kind: HeaderKind,
)
    requires
        offer matches Some(b) ==> b.len() <= u32::MAX,
    ensures
        ({
            let r = invitation::with_offer(req, offer);
            &&& offer matches Some(b) ==> r.body == b
            &&& offer is None ==> r.body.len() == 0
            &&& r.method == req.method && r.uri == req.uri && r.version == req.version
            &&& header::of_kind(r.headers, HeaderKind::ContentLength) == seq![
                HeaderView::ContentLength(r.body.len() as u32),
            ]
            &&& kind != HeaderKind::ContentLength ==> header::of_kind(r.headers, kind)
                == header::of_kind(req.headers, kind)
        }),
{
    let body = match offer {
        Some(b) => b,
        None => Seq::empty(),
    };
    let length = HeaderView::ContentLength(build::length_of(body));
    invitation::lemma_of_kind_unique(req.headers, length, HeaderKind::ContentLength);
    invitation::lemma_of_kind_unique(req.headers, length, kind);
}

}
