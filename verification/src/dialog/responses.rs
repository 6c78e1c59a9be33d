//! The responses that a dialog writes.

use super::dialog;
use super::dialog::{DialogInner, DialogView};
use super::requests;
use crate::lists;
use crate::sip::header;
use crate::sip::header::{CSeq, Field, FieldView, Header, HeaderKind, HeaderView};
use crate::sip::message;
use crate::sip::message::{Request, RequestView, Response, ResponseView};
use crate::sip::status::StatusCode;
use crate::text;
use crate::transaction::message as build;
use vstd::prelude::*;
use vstd::string::*;

verus! {

/// The header of a request that a response takes over, as the response has it. A
/// To header gets this end's tag, except in a `100 Trying`; one that cannot be
/// read is left out.
pub open spec fn taken_over(h: HeaderView, status: StatusCode, tag: Seq<char>) -> Option<
    HeaderView,
> {
    match h {
        HeaderView::Via(_) | HeaderView::From(_) | HeaderView::CSeq(_) | HeaderView::CallId(_)
        | HeaderView::RecordRoute(_) => Some(h),
        HeaderView::To(FieldView::Typed(to)) => Some(
            HeaderView::To(
                FieldView::Typed(
                    if status == StatusCode::Trying {
                        to
                    } else {
                        to.or_tag(tag)
                    },
                ),
            ),
        ),
        _ => None,
    }
}

/// A History-Info header.
pub open spec fn as_history(h: HeaderView) -> Option<HeaderView> {
    if h is HistoryInfo {
        Some(h)
    } else {
        None
    }
}

/// The Session-ID of a response: this end's identifier and the peer's, which the
/// request may have changed.
pub open spec fn response_session(d: DialogView, request: Seq<HeaderView>) -> Option<HeaderView> {
    match d.session_id {
        Some(sid) => dialog::session_header(
            sid.local,
            match message::peer_uuid_of(request) {
                Some(p) => Some(p),
                None => sid.remote,
            },
        ),
        None => None,
    }
}

/// Another header than an unnamed one with the name `name`.
pub open spec fn is_not_named(h: HeaderView, name: Seq<char>) -> bool {
    !(h matches HeaderView::Other(n, _) && text::same_ignoring_case(n, name))
}

/// A header of the caller is added: it takes the place of those of its kind or
/// its name. History-Info headers stand beside each other.
pub open spec fn with_header(headers: Seq<HeaderView>, h: HeaderView) -> Seq<HeaderView> {
    match h {
        HeaderView::Other(name, _) => headers.filter(|x: HeaderView| is_not_named(x, name)).push(h),
        HeaderView::HistoryInfo(_) => headers.push(h),
        _ => header::unique_pushed(headers, h),
    }
}

/// The headers of the caller are added one after the other.
pub open spec fn with_headers(headers: Seq<HeaderView>, more: Seq<HeaderView>) -> Seq<HeaderView>
    decreases more.len(),
{
    if more.len() == 0 {
        headers
    } else {
        with_header(with_headers(headers, more.drop_last()), more.last())
    }
}

/// The headers of a response before those of the caller.
pub open spec fn own_response_headers(
    d: DialogView,
    request: Seq<HeaderView>,
    status: StatusCode,
    headers: Option<Seq<HeaderView>>,
) -> Seq<HeaderView> {
    let base = lists::all_of(
        request,
        |h: HeaderView| taken_over(h, status, d.id.local_tag),
    ) + requests::optional(requests::contact_header(d));
    if status == StatusCode::Trying {
        base
    } else {
        let with_session = base + requests::optional(response_session(d, request));
        if headers matches Some(hs) && header::has_kind(hs, HeaderKind::HistoryInfo) {
            with_session
        } else {
            with_session + lists::all_of(request, |h: HeaderView| as_history(h))
        }
    }
}

/// The response of the dialog to a request.
#[verifier::opaque]
pub open spec fn response_in(
    d: DialogView,
    user_agent: Seq<char>,
    request: RequestView,
    status: StatusCode,
    headers: Option<Seq<HeaderView>>,
    body: Seq<u8>,
) -> ResponseView {
    let own = own_response_headers(d, request.headers, status, headers);
    let all = match headers {
        Some(hs) => with_headers(own, hs),
        None => own,
    };
    ResponseView {
        status_code: status,
        version: request.version,
        headers: header::without(
            header::without(all, HeaderKind::ContentLength),
            HeaderKind::UserAgent,
        ).push(HeaderView::ContentLength(build::length_of(body))).push(
            HeaderView::UserAgent(user_agent),
        ),
        body,
    }
}

fn take_over(h: &Header, status: StatusCode, tag: &String) -> (r: Option<Header>)
    ensures
        r.deep_view() == taken_over(h@, status, tag@),
{
    match h {
        Header::Via(_) | Header::From(_) | Header::CSeq(_) | Header::CallId(_)
        | Header::RecordRoute(_) => Some(h.clone()),
        Header::To(Field::Typed(to)) => {
            let to = to.clone();
            Some(
                Header::To(
                    Field::Typed(
                        if status == StatusCode::Trying {
                            to
                        } else {
                            to.or_tag(tag)
                        },
                    ),
                ),
            )
        },
        _ => None,
    }
}

fn remove_named(headers: &mut Vec<Header>, name: &String)
    ensures
        final(headers).deep_view() == old(headers).deep_view().filter(
            |x: HeaderView| is_not_named(x, name@),
        ),
{
    let ghost all = headers.deep_view();
    let ghost keep = |x: HeaderView| is_not_named(x, name@);
    let mut kept: Vec<Header> = Vec::new();
    let mut i: usize = 0;
    while i < headers.len()
        invariant
            i <= headers.len(),
            all == headers.deep_view(),
            keep == (|x: HeaderView| is_not_named(x, name@)),
            kept.deep_view() == all.take(i as int).filter(keep),
        decreases headers.len() - i,
    {
        proof {
            lists::lemma_filter_step(all, i as int, keep);
        }
        let named = match &headers[i] {
            Header::Other(n, _) => text::eq_ignore_ascii_case(n.as_str(), name.as_str()),
            _ => false,
        };
        if !named {
            header::push(&mut kept, headers[i].clone());
        }
        i = i + 1;
    }
    assert(all.take(i as int) == all);
    *headers = kept;
}

fn put_header(headers: &mut Vec<Header>, h: Header)
    ensures
        final(headers).deep_view() == with_header(old(headers).deep_view(), h@),
{
    match &h {
        Header::Other(name, _) => {
            remove_named(headers, name);
            header::push(headers, h);
        },
        Header::HistoryInfo(_) => header::push(headers, h),
        _ => header::unique_push(headers, h),
    }
}

impl DialogInner {
    fn own_response_headers(
        &self,
        request: &Request,
        status: StatusCode,
        headers: &Option<Vec<Header>>,
    ) -> (r: Vec<Header>)
        ensures
            r.deep_view() == own_response_headers(
                self@,
                request@.headers,
                status,
                requests::headers_of(*headers),
            ),
    {
        let mut out: Vec<Header> = Vec::new();
        let ghost all = request.headers.deep_view();
        let ghost tag = self.id.local_tag@;
        let ghost pick = |h: HeaderView| taken_over(h, status, tag);
        let mut i: usize = 0;
        while i < request.headers.len()
            invariant
                i <= request.headers.len(),
                all == request.headers.deep_view(),
                tag == self.id.local_tag@,
                pick == (|h: HeaderView| taken_over(h, status, tag)),
                out.deep_view() == lists::all_of(all.take(i as int), pick),
            decreases request.headers.len() - i,
        {
            proof {
                lists::lemma_all_of_step(all, i as int, pick);
            }
            if let Some(h) = take_over(&request.headers[i], status, &self.id.local_tag) {
                header::push(&mut out, h);
            }
            i = i + 1;
        }
        assert(all.take(i as int) == all);
        requests::push_optional(&mut out, self.local_contact_header());
        if status == StatusCode::Trying {
            return out;
        }
        let session = match &self.session_id {
            Some(sid) => match message::peer_uuid(&request.headers) {
                Some(p) => dialog::build_session_id_header(sid.local.as_str(), Some(&p)),
                None => dialog::build_session_id_header(sid.local.as_str(), sid.remote.as_ref()),
            },
            None => None,
        };
        assert(session.deep_view() == response_session(self@, request@.headers));
        requests::push_optional(&mut out, session);
        let supplied = match headers {
            Some(hs) => header::contains_kind(hs, HeaderKind::HistoryInfo),
            None => false,
        };
        if supplied {
            return out;
        }
        let ghost before = out.deep_view();
        let ghost history = |h: HeaderView| as_history(h);
        let mut k: usize = 0;
        while k < request.headers.len()
            invariant
                k <= request.headers.len(),
                all == request.headers.deep_view(),
                history == (|h: HeaderView| as_history(h)),
                out.deep_view() == before + lists::all_of(all.take(k as int), history),
            decreases request.headers.len() - k,
        {
            proof {
                lists::lemma_all_of_step(all, k as int, history);
            }
            if let Header::HistoryInfo(_) = &request.headers[k] {
                header::push(&mut out, request.headers[k].clone());
            }
            k = k + 1;
        }
        assert(all.take(k as int) == all);
        out
    }

    /// Writes the response of the dialog to a request.
    pub fn make_response(
        &self,
        user_agent: &String,
        request: &Request,
        status: StatusCode,
        headers: Option<Vec<Header>>,
        body: Option<Vec<u8>>,
    ) -> (r: Response)
        ensures
            r@ == response_in(
                self@,
                user_agent@,
                request@,
                status,
                requests::headers_of(headers),
                requests::body_of(body),
            ),
    {
        proof {
            reveal(response_in);
        }
        let body = match body {
            Some(b) => b,
            None => Vec::new(),
        };
        let mut out = self.own_response_headers(request, status, &headers);
        if let Some(extra) = &headers {
            let ghost own = out.deep_view();
            let ghost all = extra.deep_view();
            let mut i: usize = 0;
            while i < extra.len()
                invariant
                    i <= extra.len(),
                    all == extra.deep_view(),
                    out.deep_view() == with_headers(own, all.take(i as int)),
                decreases extra.len() - i,
            {
                assert(all.take(i + 1).drop_last() == all.take(i as int));
                assert(all.take(i + 1).last() == all[i as int]);
                put_header(&mut out, extra[i].clone());
                i = i + 1;
            }
            assert(all.take(i as int) == all);
        }
        header::remove_kind(&mut out, HeaderKind::ContentLength);
        header::remove_kind(&mut out, HeaderKind::UserAgent);
        header::push(&mut out, build::content_length(&body));
        header::push(&mut out, Header::UserAgent(user_agent.clone()));
        Response { status_code: status, version: request.version, headers: out, body }
    }
}

}
