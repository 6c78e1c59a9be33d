//! What the operations on a call come to, whatever addresses and branches are used.

use super::dialog::{DialogStateView, DialogView};
use super::id::DialogIdView;
use super::invitation;
use super::invitation::{DialogLayerView, InviteOptionView};
use super::invite_dialog;
use super::invite_dialog::EndingView;
use super::invite_laws;
use super::message_laws;
use super::refer;
use super::refer::ReferStatus;
use super::requests;
use crate::error::ErrorView;
use crate::lists;
use crate::sip::basic::{Method, Transport};
use crate::sip::header;
use crate::sip::header::{CSeq, FieldView, HeaderKind, HeaderView};
use crate::sip::message::{RequestView, ResponseView};
use crate::sip::status::{StatusCode, StatusCodeKind};
use crate::sip::uri::{NameAddrView, ParamView};
use crate::text;
use crate::transaction::endpoint::EndpointView;
use crate::transaction::ids;
use crate::transaction::key::TransactionRole;
use crate::transport::sip_addr::SipAddrView;
use vstd::prelude::*;
use vstd::utf8::*;

verus! {

/// `req` is a request of the dialog with the method, the body and the number given,
/// to the peer, with the dialog's Call-ID.
pub open spec fn is_request_of(
    req: RequestView,
    d: DialogView,
    method: Method,
    body: Seq<u8>,
    seq: u32,
) -> bool {
    &&& req.method == method && req.uri == d.remote_uri && req.body == body
    &&& header::of_kind(req.headers, HeaderKind::CallId) == seq![
        HeaderView::CallId(d.id.call_id),
    ]
    &&& header::of_kind(req.headers, HeaderKind::CSeq) == seq![
        HeaderView::CSeq(FieldView::Typed(CSeq { seq, method })),
    ]
}

proof fn lemma_request_of(
    d: DialogView,
    ep: EndpointView,
    addrs: Seq<SipAddrView>,
    branch: Seq<char>,
    method: Method,
    headers: Option<Seq<HeaderView>>,
    body: Seq<u8>,
)
    requires
        d.local_seq < u32::MAX,
    ensures
        ({
            let (f, r) = requests::next_request(
                d,
                ep,
                addrs,
                branch,
                method,
                None,
                headers,
                body,
            );
            r matches Ok(req) ==> {
                &&& f == DialogView { local_seq: (d.local_seq + 1) as u32, ..d }
                &&& is_request_of(req, d, method, body, f.local_seq)
                &&& headers matches Some(hs) ==> header::of_kind(
                    req.headers,
                    HeaderKind::Reason,
                ) == header::of_kind(hs, HeaderKind::Reason) && header::of_kind(
                    req.headers,
                    HeaderKind::ReferTo,
                ) == header::of_kind(hs, HeaderKind::ReferTo)
            }
        }),
{
    let (f, r) = requests::next_request(d, ep, addrs, branch, method, None, headers, body);
    if r is Ok {
        assert(addrs.len() > 0) by {
            reveal(requests::next_request);
            if addrs.len() == 0 {
                if let Some(t) = d.send_transport(ep) {
                    lists::law_first_of_nothing(
                        addrs,
                        |a: SipAddrView| super::dialog::addr_with(a, t),
                    );
                }
            }
        }
        message_laws::law_request_goes_from_end_to_end(
            d,
            ep,
            addrs,
            branch,
            method,
            None,
            headers,
            body,
        );
        message_laws::law_request_bears_its_number(
            d,
            ep,
            addrs,
            branch,
            method,
            None,
            headers,
            body,
        );
        message_laws::law_request_bears_the_given_headers(
            d,
            ep,
            addrs,
            branch,
            method,
            None,
            headers,
            body,
            HeaderKind::Reason,
        );
        message_laws::law_request_bears_the_given_headers(
            d,
            ep,
            addrs,
            branch,
            method,
            None,
            headers,
            body,
            HeaderKind::ReferTo,
        );
        reveal(requests::next_request);
        reveal(requests::request_in);
    }
}

/// A request that is asked for within an established call is a request of the
/// dialog with that method and body, with the next number. Without an established
/// call there is none, and the dialog stays as it is.
pub proof fn law_call_request_outcome(
    d: DialogView,
    ep: EndpointView,
    method: Method,
    headers: Option<Seq<HeaderView>>,
    body: Seq<u8>,
    after: (DialogView, Result<Option<RequestView>, ErrorView>),
)
    requires
        invite_dialog::is_call_request(d, ep, method, headers, body, after),
        d.local_seq < u32::MAX,
    ensures
        !(d.state is Confirmed) ==> after == (d, Ok::<Option<RequestView>, ErrorView>(None)),
        d.state is Confirmed ==> (after.1 matches Ok(r) ==> {
            &&& r matches Some(req)
            &&& is_request_of(req, d, method, body, (d.local_seq + 1) as u32)
            &&& after.0 == DialogView { local_seq: (d.local_seq + 1) as u32, ..d }
            &&& headers matches Some(hs) ==> header::of_kind(req.headers, HeaderKind::ReferTo)
                == header::of_kind(hs, HeaderKind::ReferTo)
        }),
{
    let (addrs, branch) = choose|addrs: Seq<SipAddrView>, branch: Seq<char>|
        #[trigger] requests::can_send_with(ep, addrs, branch) && after
            == invite_dialog::call_request(d, ep, addrs, branch, method, headers, body);
    lemma_request_of(d, ep, addrs, branch, method, headers, body);
}

/// The BYE that is asked for ends an established call, or one that a server has
/// accepted, and says why where a reason is given.
pub proof fn law_bye_outcome(
    d: DialogView,
    ep: EndpointView,
    headers: Option<Seq<HeaderView>>,
    after: (DialogView, Result<Option<RequestView>, ErrorView>),
)
    requires
        invite_dialog::is_bye(d, ep, headers, after),
        d.local_seq < u32::MAX,
    ensures
        d.state is Terminated ==> after == (d, Ok::<Option<RequestView>, ErrorView>(None)),
        d.state is Confirmed || (d.role == TransactionRole::Server && d.state is WaitAck) ==> (
        after.1 matches Ok(r) ==> {
            &&& r matches Some(bye)
            &&& is_request_of(bye, d, Method::Bye, Seq::empty(), (d.local_seq + 1) as u32)
            &&& headers matches Some(hs) ==> header::of_kind(bye.headers, HeaderKind::Reason)
                == header::of_kind(hs, HeaderKind::Reason)
        }),
        d.state is Calling || d.state is Trying || d.state is Early ==> after.0 == d
            && after.1 is Err,
{
    let (addrs, branch) = choose|addrs: Seq<SipAddrView>, branch: Seq<char>|
        #[trigger] requests::can_send_with(ep, addrs, branch) && after == invite_dialog::bye(
            d,
            ep,
            addrs,
            branch,
            headers,
        );
    lemma_request_of(d, ep, addrs, branch, Method::Bye, headers, Seq::empty());
}

/// A client hangs up with the CANCEL of its INVITE while that rings, and with a BYE
/// once the call is established. A server does nothing here.
pub proof fn law_hangup_outcome(
    d: DialogView,
    ep: EndpointView,
    headers: Option<Seq<HeaderView>>,
    after: (DialogView, Result<EndingView, ErrorView>),
)
    requires
        invite_dialog::is_client_hangup(d, ep, headers, after),
        d.local_seq < u32::MAX,
    ensures
        d.role == TransactionRole::Server ==> after.0 == d && after.1 == Ok::<_, ErrorView>(
            EndingView::Nothing,
        ),
        d.role == TransactionRole::Client && (d.state is Trying || d.state is Early) ==> after.0
            == d && (after.1 matches Ok(e) ==> (e matches EndingView::Cancel(c) && c.method
            == Method::Cancel && c.uri == d.initial_request.uri && c.body.len() == 0)),
        d.role == TransactionRole::Client && d.state is Calling ==> after == (
            d,
            Ok::<_, ErrorView>(EndingView::Nothing),
        ),
        d.role == TransactionRole::Client && d.state is Confirmed ==> (after.1 matches Ok(e) ==> (
        e matches EndingView::Bye(bye) && is_request_of(
            bye,
            d,
            Method::Bye,
            Seq::empty(),
            (d.local_seq + 1) as u32,
        ))),
        d.role == TransactionRole::Client && d.state is Terminated ==> after == (
            d,
            Ok::<_, ErrorView>(EndingView::Nothing),
        ),
{
    if d.role == TransactionRole::Client {
        let (addrs, branch) = choose|addrs: Seq<SipAddrView>, branch: Seq<char>|
            #[trigger] requests::can_send_with(ep, addrs, branch) && after
                == invite_dialog::hangup(d, ep, addrs, branch, headers);
        lemma_request_of(d, ep, addrs, branch, Method::Bye, headers, Seq::empty());
    }
}

/// A 2xx that comes after the CANCEL is ended with a BYE to the Contact of the 2xx,
/// along its routes in the opposite order, with the tag of its To.
pub proof fn law_late_2xx_is_ended_where_it_came_from(
    d: DialogView,
    ep: EndpointView,
    addrs: Seq<SipAddrView>,
    branch: Seq<char>,
    resp: ResponseView,
    contact: crate::sip::uri::NameAddrView,
    tag: Seq<char>,
)
    requires
        d.role == TransactionRole::Client,
        d.local_seq < u32::MAX,
        addrs.len() > 0,
        crate::sip::message::to_tag_of(resp.headers) == Ok::<_, ErrorView>(Some(tag)),
        crate::sip::message::contact_of(resp.headers) == Ok::<_, ErrorView>(Some(contact)),
    ensures
        ({
            let (f, r) = invite_dialog::bye_after_cancel(d, ep, addrs, branch, resp);
            let recorded = crate::sip::message::record_routes(resp.headers);
            &&& r matches Ok(bye)
            &&& bye.method == Method::Bye && bye.uri == contact.uri && bye.body.len() == 0
            &&& f.local_seq == d.local_seq + 1 && f.state == d.state
            &&& f.id.remote_tag == tag && f.to == d.to.with_tag(tag)
            &&& header::of_kind(bye.headers, HeaderKind::To) == seq![
                HeaderView::To(FieldView::Typed(f.to)),
            ]
            &&& header::of_kind(bye.headers, HeaderKind::Route).len() == recorded.len()
            &&& forall|i: int|
                0 <= i < recorded.len() ==> #[trigger] header::of_kind(
                    bye.headers,
                    HeaderKind::Route,
                )[i] == HeaderView::Route(recorded[recorded.len() - 1 - i])
        }),
{
    let e = d.with_remote_tag(tag);
    let g = invite_dialog::with_target_of_2xx(e, resp).0;
    lemma_request_of(g, ep, addrs, branch, Method::Bye, None, Seq::empty());
    message_laws::law_request_goes_from_end_to_end(
        g,
        ep,
        addrs,
        branch,
        Method::Bye,
        None,
        None,
        Seq::empty(),
    );
    message_laws::law_request_follows_the_route_set(
        g,
        ep,
        addrs,
        branch,
        Method::Bye,
        None,
        None,
        Seq::empty(),
    );
}

/// One more header stands behind those given.
pub proof fn law_one_more_header_is_the_last(headers: Option<Seq<HeaderView>>, h: HeaderView)
    ensures
        invite_dialog::with_one_more(headers, h) matches Some(all) && all.len() > 0 && all.last()
            == h && all.drop_last() == match headers {
            Some(hs) => hs,
            None => Seq::empty(),
        },
{
    if let Some(all) = invite_dialog::with_one_more(headers, h) {
        assert(all.drop_last() == match headers {
            Some(hs) => hs,
            None => Seq::<HeaderView>::empty(),
        });
    }
}

/// The NOTIFY of a REFER says that it is one, how the subscription goes on, and
/// that its body is a part of a message.
pub proof fn law_notify_says_what_it_is(sub_state: Seq<char>)
    ensures
        ({
            let hs = invite_dialog::notify_refer_headers(sub_state);
            &&& header::of_kind(hs, HeaderKind::Event) == seq![HeaderView::Event("refer"@)]
            &&& header::of_kind(hs, HeaderKind::SubscriptionState) == seq![
                HeaderView::SubscriptionState(sub_state),
            ]
            &&& header::of_kind(hs, HeaderKind::ContentType) == seq![
                HeaderView::ContentType("message/sipfrag"@),
            ]
        }),
{
    let hs = invite_dialog::notify_refer_headers(sub_state);
    header::lemma_of_kind_once(hs, 0);
    header::lemma_of_kind_once(hs, 1);
    header::lemma_of_kind_once(hs, 2);
}

/// What a NOTIFY tells of a REFER is read back from it: the status, and that the
/// subscription is over if its state says so.
pub proof fn law_refer_status_is_read_back(req: RequestView, status: StatusCode, state: Seq<char>)
    requires
        status.wf(),
        req.headers.len() == 2,
        req.headers[0] == HeaderView::Other("Event"@, "refer"@),
        req.headers[1] == HeaderView::Other("Subscription-State"@, state),
        req.body == encode_utf8(refer::status_line(status)),
    ensures
        refer::refer_status(req) == Some(
            ReferStatus {
                status_code: status,
                is_terminated: text::contains_ignoring_case(state, "terminated"@),
            },
        ),
{
    refer::law_status_body_is_read_back(status);
    reveal_strlit("Event");
    reveal_strlit("event");
    reveal_strlit("Subscription-State");
    reveal_strlit("subscription-state");
    reveal_strlit("refer");
    assert(text::same_ignoring_case("Event"@, "event"@));
    assert("Event"@.len() != "subscription-state"@.len());
    assert(text::same_ignoring_case("Subscription-State"@, "subscription-state"@));
    lists::law_first_of_is_the_first(
        req.headers,
        0,
        |h: HeaderView| refer::as_other(h, "event"@),
    );
    lists::law_first_of_is_the_first(
        req.headers,
        1,
        |h: HeaderView| refer::as_other(h, "subscription-state"@),
    );
    assert("refer"@.subrange(0, 5) == "refer"@);
    assert(text::occurs_at("refer"@, "refer"@, 0));
}

/// Only an established call stays in the registry, under the name that its 2xx gave
/// it; the early name is gone in any case, and all other calls stay.
pub proof fn law_registry_follows_the_call(
    layer: DialogLayerView,
    early: DialogIdView,
    number: u64,
    name: DialogIdView,
    resp: ResponseView,
    other: Seq<char>,
    e: ErrorView,
)
    requires
        other != early.text(),
        other != name.text(),
    ensures
        ({
            let after = invitation::invite_finished(layer, early, number, Ok((name, Some(resp))));
            let won = resp.status_code.spec_kind() == StatusCodeKind::Successful;
            &&& won ==> after.dialogs.contains_key(name.text()) && after.dialogs[name.text()]
                == number
            &&& !won ==> !after.dialogs.contains_key(early.text())
            &&& early.text() != name.text() ==> !after.dialogs.contains_key(early.text())
            &&& after.dialogs.contains_key(other) == layer.dialogs.contains_key(other)
            &&& layer.dialogs.contains_key(other) ==> after.dialogs[other] == layer.dialogs[other]
        }),
        !invitation::invite_finished(layer, early, number, Err(e)).dialogs.contains_key(
            early.text(),
        ),
        !invitation::invite_finished(layer, early, number, Ok((name, None))).dialogs.contains_key(
            early.text(),
        ),
{
}

/// The name of a dialog tells it apart by each of its parts.
pub proof fn law_dialogs_are_told_apart(a: DialogIdView, b: DialogIdView)
    requires
        a.text() == b.text(),
    ensures
        a.call_id == b.call_id && a.local_tag == b.local_tag ==> a.remote_tag == b.remote_tag,
        a.call_id == b.call_id && a.remote_tag == b.remote_tag ==> a.local_tag == b.local_tag,
        a.local_tag == b.local_tag && a.remote_tag == b.remote_tag ==> a.call_id == b.call_id,
{
    if a.call_id == b.call_id && a.local_tag == b.local_tag {
        let head = a.call_id + "-"@ + a.local_tag + "-"@;
        lists::lemma_same_head(head, a.remote_tag, b.remote_tag);
    }
    if a.call_id == b.call_id && a.remote_tag == b.remote_tag {
        let head = a.call_id + "-"@;
        lists::lemma_same_tail(
            head + a.local_tag + "-"@,
            head + b.local_tag + "-"@,
            a.remote_tag,
        );
        lists::lemma_same_tail(head + a.local_tag, head + b.local_tag, "-"@);
        lists::lemma_same_head(head, a.local_tag, b.local_tag);
    }
    if a.local_tag == b.local_tag && a.remote_tag == b.remote_tag {
        lists::lemma_same_tail(
            a.call_id + "-"@ + a.local_tag + "-"@,
            b.call_id + "-"@ + a.local_tag + "-"@,
            a.remote_tag,
        );
        lists::lemma_same_tail(
            a.call_id + "-"@ + a.local_tag,
            b.call_id + "-"@ + a.local_tag,
            "-"@,
        );
        lists::lemma_same_tail(a.call_id + "-"@, b.call_id + "-"@, a.local_tag);
        lists::lemma_same_tail(a.call_id, b.call_id, "-"@);
    }
}

/// A call can be cancelled exactly while its INVITE has no final answer.
pub proof fn law_unanswered_call_can_be_cancelled(state: DialogStateView)
    ensures
        state.can_cancel() <==> state is Calling || state is Trying || state is Early,
{
}

/// An INVITE that is written for a call goes to the callee with the number given. It
/// comes from the caller with a new tag of 8 characters, whose Call-ID is the
/// caller's where one is given; its Via has a new branch; and where the caller asks
/// for no transport but UDP, its Contact is the caller's as it is.
pub proof fn law_invite_outcome(
    ep: EndpointView,
    opt: InviteOptionView,
    seq: u32,
    req: RequestView,
)
    requires
        invitation::is_invite_request(ep, opt, seq, Ok(req)),
        opt.headers is None,
    ensures
        req.method == Method::Invite && req.uri == opt.callee && req.body.len() == 0,
        header::of_kind(req.headers, HeaderKind::CSeq) == seq![
            HeaderView::CSeq(FieldView::Typed(CSeq { seq, method: Method::Invite })),
        ],
        header::of_kind(req.headers, HeaderKind::From).len() == 1,
        header::of_kind(req.headers, HeaderKind::From)[0] matches HeaderView::From(
            FieldView::Typed(from),
        ) && from.uri == opt.caller && from.display_name == opt.caller_display_name && (
        from.tag() matches Some(tag) && tag.len() == 8),
        opt.call_id matches Some(c) ==> header::of_kind(req.headers, HeaderKind::CallId) == seq![
            HeaderView::CallId(c),
        ],
        header::of_kind(req.headers, HeaderKind::Via).len() == 1,
        header::of_kind(req.headers, HeaderKind::Via)[0] matches HeaderView::Via(
            FieldView::Typed(top),
        ) && top.params.len() > 0 && (top.params[0] matches ParamView::Branch(b) && b.len() == 19),
        header::of_kind(req.headers, HeaderKind::Contact).len() == 1,
        invite_laws::asked_transport(opt) is None || invite_laws::asked_transport(opt) == Some(
            Transport::Udp,
        ) ==> header::of_kind(req.headers, HeaderKind::Contact)[0] == HeaderView::Contact(
            FieldView::Typed(
                NameAddrView { display_name: None, uri: opt.contact, params: Seq::empty() },
            ),
        ),
{
    let (addrs, tag, branch, call_id) = choose|
        addrs: Seq<SipAddrView>,
        tag: Seq<char>,
        branch: Seq<char>,
        call_id: Seq<char>,
    |
        Ok::<_, ErrorView>(req) == #[trigger] invitation::invite_request(
            ep,
            opt,
            addrs,
            seq,
            tag,
            branch,
            call_id,
        ) && ids::is_tag(tag) && ids::is_branch(branch);
    invite_laws::law_invite_is_refused(ep, opt, addrs, seq, tag, branch, call_id);
    let i = lemma_some_address(opt, addrs);
    invite_laws::law_invite_names_both_ends(ep, opt, addrs, seq, tag, branch, call_id, req);
    invite_laws::law_invite_names_the_address_it_leaves_from(
        ep,
        opt,
        addrs,
        seq,
        tag,
        branch,
        call_id,
        req,
        i,
    );
    invite_laws::law_invite_contact_is_the_callers(
        ep,
        opt,
        addrs,
        seq,
        tag,
        branch,
        call_id,
        req,
        i,
    );
    crate::sip::laws::law_new_tag_is_the_only_one(
        NameAddrView {
            display_name: opt.caller_display_name,
            uri: opt.caller,
            params: opt.caller_params,
        },
        tag,
    );
    let contact = header::of_kind(req.headers, HeaderKind::Contact)[0];
    if invite_laws::chooses_none(opt, addrs) {
        assert(contact matches HeaderView::Contact(FieldView::Typed(c)) && c.params
            == Seq::<ParamView>::empty());
    }
}

proof fn lemma_some_address(opt: InviteOptionView, addrs: Seq<SipAddrView>) -> (i: int)
    ensures
        invite_laws::chooses(opt, addrs, i) || (i == 0 && invite_laws::chooses_none(opt, addrs)),
{
    let t = invite_laws::asked_transport(opt);
    if t is None || t == Some(Transport::Udp) {
        0
    } else {
        lemma_first_of_transport(opt, addrs, t->0, 0)
    }
}

proof fn lemma_first_of_transport(
    opt: InviteOptionView,
    addrs: Seq<SipAddrView>,
    t: Transport,
    from: int,
) -> (i: int)
    requires
        invite_laws::asked_transport(opt) == Some(t),
        t != Transport::Udp,
        0 <= from <= addrs.len(),
        forall|j: int| 0 <= j < from ==> (#[trigger] addrs[j]).transport != Some(t),
    ensures
        invite_laws::chooses(opt, addrs, i) || (i == 0 && invite_laws::chooses_none(opt, addrs)),
    decreases addrs.len() - from,
{
    if from == addrs.len() {
        0
    } else if addrs[from].transport == Some(t) {
        from
    } else {
        lemma_first_of_transport(opt, addrs, t, from + 1)
    }
}

/// A NOTIFY that speaks of anything but a REFER tells nothing of one.
pub proof fn law_other_notifies_tell_nothing(req: RequestView, event: Seq<char>)
    requires
        req.headers.len() > 0,
        req.headers[0] == HeaderView::Other("Event"@, event),
        !text::contains_ignoring_case(event, "refer"@),
    ensures
        refer::refer_status(req) is None,
{
    reveal_strlit("Event");
    reveal_strlit("event");
    assert(text::same_ignoring_case("Event"@, "event"@));
    lists::law_first_of_is_the_first(
        req.headers,
        0,
        |h: HeaderView| refer::as_other(h, "event"@),
    );
}

}
