//! The messages that a dialog writes.

use super::dialog;
use super::dialog::{DialogInner, DialogView};
use crate::error;
use crate::error::{Error, ErrorView};
use crate::lists;
use crate::sip::basic::{Method, Version};
use crate::sip::header;
use crate::sip::header::{CSeq, Field, FieldView, Header, HeaderKind, HeaderView};
use crate::sip::message::{Request, RequestView};
use crate::sip::uri::{NameAddr, Param, ParamView, Via, ViaView};
use crate::sip::uri;
use crate::transaction::endpoint;
use crate::transaction::endpoint::{EndpointInner, EndpointView};
use crate::transaction::ids;
use crate::transaction::key::TransactionRole;
use crate::transaction::message as build;
use crate::transport::sip_addr::{SipAddr, SipAddrView};
use crate::transport::transport_layer;
use vstd::prelude::*;
use vstd::string::*;

verus! {

pub open spec fn via_header(v: ViaView) -> HeaderView {
    HeaderView::Via(FieldView::Typed(v))
}

/// Nothing, or one header.
pub open spec fn optional(h: Option<HeaderView>) -> Seq<HeaderView> {
    match h {
        Some(h) => seq![h],
        None => Seq::empty(),
    }
}

/// The Contact of this end, if it has one.
pub open spec fn contact_header(d: DialogView) -> Option<HeaderView> {
    match d.local_contact {
        Some(u) => Some(HeaderView::Contact(FieldView::Typed(uri::plain_addr(u)))),
        None => None,
    }
}

/// The headers given by the caller that are not the dialog's to write.
pub open spec fn custom(headers: Option<Seq<HeaderView>>) -> Seq<HeaderView> {
    match headers {
        Some(hs) => hs.filter(|h: HeaderView| !dialog::is_system(h)),
        None => Seq::empty(),
    }
}

/// The Session-ID of a request, unless the caller gives one or the dialog takes
/// no part in it.
pub open spec fn request_session(d: DialogView, headers: Option<Seq<HeaderView>>) -> Option<
    HeaderView,
> {
    match d.session_id {
        Some(sid) if !(headers matches Some(hs) && header::has_kind(hs, HeaderKind::SessionId)) => {
            dialog::session_header(sid.local, sid.remote)
        },
        _ => None,
    }
}

/// The headers that name the dialog and the request: this end is the From end of
/// what it sends.
pub open spec fn address_headers(d: DialogView, user_agent: Seq<char>, cseq: CSeq) -> Seq<
    HeaderView,
> {
    let (from, to) = match d.role {
        TransactionRole::Client => (d.from, d.to),
        TransactionRole::Server => (d.to, d.from),
    };
    seq![
        HeaderView::CallId(d.id.call_id),
        HeaderView::From(FieldView::Typed(from)),
        HeaderView::To(FieldView::Typed(to)),
        HeaderView::CSeq(FieldView::Typed(cseq)),
        HeaderView::UserAgent(user_agent),
    ]
}

/// The headers of a request within the dialog: those of the dialog first, then
/// those of the caller.
pub open spec fn request_headers(
    d: DialogView,
    user_agent: Seq<char>,
    cseq: CSeq,
    vias: Seq<ViaView>,
    headers: Option<Seq<HeaderView>>,
    body: Seq<u8>,
) -> Seq<HeaderView> {
    vias.map_values(|v: ViaView| via_header(v)) + address_headers(d, user_agent, cseq) + optional(contact_header(d)) + build::route_headers(d.route_set) + seq![
        HeaderView::MaxForwards(70),
    ] + optional(request_session(d, headers)) + seq![
        HeaderView::ContentLength(build::length_of(body)),
    ] + custom(headers)
}

pub open spec fn body_of(body: Option<Vec<u8>>) -> Seq<u8> {
    match body {
        Some(b) => b@,
        None => Seq::empty(),
    }
}

pub open spec fn headers_of(headers: Option<Vec<Header>>) -> Option<Seq<HeaderView>> {
    match headers {
        Some(h) => Some(h.deep_view()),
        None => None,
    }
}

/// A request within the dialog. It takes the next number unless `cseq` gives
/// one.
#[verifier::opaque]
pub open spec fn request_in(
    d: DialogView,
    user_agent: Seq<char>,
    method: Method,
    cseq: Option<u32>,
    vias: Seq<ViaView>,
    headers: Option<Seq<HeaderView>>,
    body: Seq<u8>,
) -> (DialogView, RequestView) {
    let seq = match cseq {
        Some(n) => n,
        None => dialog::next_seq(d.local_seq),
    };
    (
        DialogView {
            local_seq: match cseq {
                Some(_) => d.local_seq,
                None => seq,
            },
            ..d
        },
        RequestView {
            method,
            uri: d.remote_uri,
            version: Version::V2,
            headers: request_headers(d, user_agent, CSeq { seq, method }, vias, headers, body),
            body,
        },
    )
}

/// The Via of a request within the dialog: for the address of the transport that
/// the request goes out on, or else for the first one.
pub open spec fn request_via(
    d: DialogView,
    ep: EndpointView,
    addrs: Seq<SipAddrView>,
    branch: Seq<char>,
) -> Result<ViaView, ErrorView> {
    match d.via_addr(ep, addrs) {
        Some(a) => Ok(endpoint::via_for(a, ParamView::Branch(branch))),
        None => if addrs.len() > 0 {
            Ok(endpoint::via_for(addrs[0], ParamView::Branch(branch)))
        } else {
            Err(ErrorView::EndpointError("not sipaddrs"@))
        },
    }
}

/// A request within the dialog, with a Via of its own.
#[verifier::opaque]
pub open spec fn next_request(
    d: DialogView,
    ep: EndpointView,
    addrs: Seq<SipAddrView>,
    branch: Seq<char>,
    method: Method,
    cseq: Option<u32>,
    headers: Option<Seq<HeaderView>>,
    body: Seq<u8>,
) -> (DialogView, Result<RequestView, ErrorView>) {
    match request_via(d, ep, addrs, branch) {
        Err(e) => (d, Err(e)),
        Ok(top) => {
            let (after, req) = request_in(
                d,
                ep.user_agent,
                method,
                cseq,
                seq![top],
                headers,
                body,
            );
            (after, Ok(req))
        },
    }
}

fn append_one(headers: &mut Vec<Header>, h: Header)
    ensures
        final(headers).deep_view() == old(headers).deep_view() + seq![h@],
{
    header::push(headers, h);
}

fn via_headers(vias: &Vec<Via>) -> (out: Vec<Header>)
    ensures
        out.deep_view() == vias.deep_view().map_values(|v: ViaView| via_header(v)),
{
    let ghost top = vias.deep_view();
    let ghost f = |v: ViaView| via_header(v);
    let mut out: Vec<Header> = Vec::new();
    let mut i: usize = 0;
    while i < vias.len()
        invariant
            i <= vias.len(),
            top == vias.deep_view(),
            f == (|v: ViaView| via_header(v)),
            out.deep_view() == top.take(i as int).map_values(f),
        decreases vias.len() - i,
    {
        header::push(&mut out, Header::Via(Field::Typed(vias[i].clone())));
        assert(top.take(i + 1).map_values(f) == top.take(i as int).map_values(f).push(
            via_header(top[i as int]),
        ));
        i = i + 1;
    }
    assert(top.take(i as int) == top);
    out
}

pub(crate) fn push_optional(headers: &mut Vec<Header>, h: Option<Header>)
    ensures
        final(headers).deep_view() == old(headers).deep_view() + optional(h.deep_view()),
{
    if let Some(h) = h {
        header::push(headers, h);
    }
}

fn push_custom(headers: &mut Vec<Header>, extra: &Option<Vec<Header>>)
    ensures
        final(headers).deep_view() == old(headers).deep_view() + custom(headers_of(*extra)),
{
    if let Some(extra) = extra {
        let ghost before = headers.deep_view();
        let ghost all = extra.deep_view();
        let ghost keep = |h: HeaderView| !dialog::is_system(h);
        let mut i: usize = 0;
        while i < extra.len()
            invariant
                i <= extra.len(),
                all == extra.deep_view(),
                keep == (|h: HeaderView| !dialog::is_system(h)),
                headers.deep_view() == before + all.take(i as int).filter(keep),
            decreases extra.len() - i,
        {
            proof {
                lists::lemma_filter_step(all, i as int, keep);
            }
            if !dialog::is_system_header(&extra[i]) {
                header::push(headers, extra[i].clone());
            }
            i = i + 1;
        }
        assert(all.take(i as int) == all);
    }
}

/// A request can go out from these addresses of the endpoint, with this new
/// branch.
pub open spec fn can_send_with(
    ep: EndpointView,
    addrs: Seq<SipAddrView>,
    branch: Seq<char>,
) -> bool {
    transport_layer::are_addrs_of(addrs, ep.transport_layer.inner) && ids::is_branch(branch)
}

impl DialogInner {
    pub(crate) fn local_contact_header(&self) -> (r: Option<Header>)
        ensures
            r.deep_view() == contact_header(self@),
    {
        match &self.local_contact {
            Some(u) => Some(Header::Contact(Field::Typed(NameAddr::of_uri(u.clone())))),
            None => None,
        }
    }

    fn session_header_for(&self, headers: &Option<Vec<Header>>) -> (r: Option<Header>)
        ensures
            r.deep_view() == request_session(self@, headers_of(*headers)),
    {
        let caller_supplied = match headers {
            Some(hs) => header::contains_kind(hs, HeaderKind::SessionId),
            None => false,
        };
        match &self.session_id {
            Some(sid) if !caller_supplied => dialog::build_session_id_header(
                sid.local.as_str(),
                sid.remote.as_ref(),
            ),
            _ => None,
        }
    }

    fn push_addresses(&self, headers: &mut Vec<Header>, cseq: CSeq, user_agent: &String)
        ensures
            final(headers).deep_view() == old(headers).deep_view() + address_headers(
                self@,
                user_agent@,
                cseq,
            ),
    {
        let ghost before = headers.deep_view();
        header::push(headers, Header::CallId(self.id.call_id.clone()));
        match self.role {
            TransactionRole::Client => {
                header::push(headers, Header::From(Field::Typed(self.from.clone())));
                header::push(headers, Header::To(Field::Typed(self.to.clone())));
            },
            TransactionRole::Server => {
                header::push(headers, Header::From(Field::Typed(self.to.clone())));
                header::push(headers, Header::To(Field::Typed(self.from.clone())));
            },
        }
        header::push(headers, Header::CSeq(Field::Typed(cseq)));
        header::push(headers, Header::UserAgent(user_agent.clone()));
        assert(headers.deep_view() == before + address_headers(self@, user_agent@, cseq));
    }

    /// Writes a request within the dialog.
    pub fn make_request_with_vias(
        &mut self,
        user_agent: &String,
        method: Method,
        cseq: Option<u32>,
        vias: &Vec<Via>,
        headers: Option<Vec<Header>>,
        body: Option<Vec<u8>>,
    ) -> (r: Request)
        ensures
            (final(self)@, r@) == request_in(
                old(self)@,
                user_agent@,
                method,
                cseq,
                vias.deep_view(),
                headers_of(headers),
                body_of(body),
            ),
    {
        proof {
            reveal(request_in);
        }
        let seq: u32 = match cseq {
            Some(n) => n,
            None => self.increment_local_seq(),
        };
        let body = match body {
            Some(b) => b,
            None => Vec::new(),
        };
        let mut out = via_headers(vias);
        self.push_addresses(&mut out, CSeq { seq, method }, user_agent);
        push_optional(&mut out, self.local_contact_header());
        build::push_routes(&mut out, &self.route_set);
        append_one(&mut out, Header::MaxForwards(70));
        push_optional(&mut out, self.session_header_for(&headers));
        append_one(&mut out, build::content_length(&body));
        push_custom(&mut out, &headers);
        Request {
            method,
            uri: self.remote_uri.clone(),
            version: Version::V2,
            headers: out,
            body,
        }
    }

    /// Writes a request within the dialog, with a Via of its own. `addrs` are
    /// the addresses of the endpoint, and `branch` is a new branch.
    pub fn make_request(
        &mut self,
        ep: &EndpointInner,
        addrs: &Vec<SipAddr>,
        branch: &String,
        method: Method,
        cseq: Option<u32>,
        headers: Option<Vec<Header>>,
        body: Option<Vec<u8>>,
    ) -> (r: Result<Request, Error>)
        ensures
            (final(self)@, error::result_view(r)) == next_request(
                old(self)@,
                ep@,
                addrs.deep_view(),
                branch@,
                method,
                cseq,
                headers_of(headers),
                body_of(body),
            ),
    {
        proof {
            reveal(next_request);
        }
        let addr = match self.via_addr_for_send_transport(ep, addrs) {
            Some(a) => a,
            None => {
                if addrs.len() == 0 {
                    return Err(Error::EndpointError("not sipaddrs".to_owned()));
                }
                assert(addrs.deep_view()[0] == addrs[0]@);
                addrs[0].clone()
            },
        };
        let top = endpoint::make_via(addr, Param::Branch(branch.clone()));
        let mut vias: Vec<Via> = Vec::new();
        vias.push(top);
        assert(vias.deep_view() == seq![top@]);
        Ok(self.make_request_with_vias(&ep.user_agent, method, cseq, &vias, headers, body))
    }
}

}
