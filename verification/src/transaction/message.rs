//! The requests and responses that the endpoint writes.

use crate::error;
use crate::error::{Error, ErrorView};
use crate::lists;
use crate::sip::basic::{Method, Version};
use crate::sip::header;
use crate::sip::header::{CSeq, Field, FieldView, Header, HeaderView};
use crate::sip::message;
use crate::sip::message::{Request, RequestView, Response, ResponseView};
use crate::sip::status::{StatusCode, StatusCodeKind};
use crate::sip::uri;
use crate::sip::uri::{NameAddr, NameAddrView, Param, ParamView, Uri, UriView, Via, ViaView};
use vstd::prelude::*;

verus! {

/// The length of a body as the wire carries it.
pub open spec fn length_of(body: Seq<u8>) -> u32 {
    body.len() as u32
}

fn body_length(body: &Vec<u8>) -> (n: u32)
    ensures
        n == length_of(body@),
{
    #[verifier::truncate]
    (body.len() as u32)
}

/// A Content-Length header for a body.
pub fn content_length(body: &Vec<u8>) -> (h: Header)
    ensures
        h@ == HeaderView::ContentLength(length_of(body@)),
{
    Header::ContentLength(body_length(body))
}

/// The headers that a response takes over from its request.
pub open spec fn is_copied(h: HeaderView) -> bool {
    h is Via || h is From || h is To || h is CallId || h is CSeq
}

/// The response to `req`: the headers that name the transaction, then the length
/// of the body and the name of this user agent.
#[verifier::opaque]
pub open spec fn response_to(
    req: RequestView,
    status: StatusCode,
    body: Seq<u8>,
    user_agent: Seq<char>,
) -> ResponseView {
    ResponseView {
        status_code: status,
        version: req.version,
        headers: req.headers.filter(|h: HeaderView| is_copied(h)).push(
            HeaderView::ContentLength(length_of(body)),
        ).push(HeaderView::UserAgent(user_agent)),
        body,
    }
}

pub fn make_response(
    req: &Request,
    status: StatusCode,
    body: Option<Vec<u8>>,
    user_agent: &String,
) -> (r: Response)
    ensures
        r@ == response_to(
            req@,
            status,
            match body {
                Some(b) => b@,
                None => Seq::empty(),
            },
            user_agent@,
        ),
{
    let body = match body {
        Some(b) => b,
        None => Vec::new(),
    };
    proof {
        reveal(response_to);
    }
    let mut headers: Vec<Header> = Vec::new();
    let ghost all = req.headers.deep_view();
    let ghost keep = |h: HeaderView| is_copied(h);
    let mut i: usize = 0;
    while i < req.headers.len()
        invariant
            i <= req.headers.len(),
            all == req.headers.deep_view(),
            keep == (|h: HeaderView| is_copied(h)),
            headers.deep_view() == all.take(i as int).filter(keep),
        decreases req.headers.len() - i,
    {
        proof {
            lists::lemma_filter_step(all, i as int, keep);
        }
        let copied = matches!(
            &req.headers[i],
            Header::Via(_) | Header::From(_) | Header::To(_) | Header::CallId(_) | Header::CSeq(_)
        );
        if copied {
            header::push(&mut headers, req.headers[i].clone());
        }
        i = i + 1;
    }
    assert(all.take(i as int) == all);
    header::push(&mut headers, content_length(&body));
    header::push(&mut headers, Header::UserAgent(user_agent.clone()));
    Response { status_code: status, version: req.version, headers, body }
}

/// A request outside of a dialog.
#[verifier::opaque]
pub open spec fn request_with(
    method: Method,
    req_uri: UriView,
    via: ViaView,
    from: NameAddrView,
    to: NameAddrView,
    seq: u32,
    call_id: Seq<char>,
    user_agent: Seq<char>,
) -> RequestView {
    RequestView {
        method,
        uri: req_uri,
        version: Version::V2,
        headers: seq![
            HeaderView::Via(FieldView::Typed(via)),
            HeaderView::CallId(call_id),
            HeaderView::From(FieldView::Typed(from)),
            HeaderView::To(FieldView::Typed(to)),
            HeaderView::CSeq(FieldView::Typed(CSeq { seq, method })),
            HeaderView::MaxForwards(70),
            HeaderView::UserAgent(user_agent),
        ],
        body: Seq::empty(),
    }
}

pub fn make_request(
    method: Method,
    req_uri: Uri,
    via: Via,
    from: NameAddr,
    to: NameAddr,
    seq: u32,
    call_id: String,
    user_agent: &String,
) -> (r: Request)
    ensures
        r@ == request_with(method, req_uri@, via@, from@, to@, seq, call_id@, user_agent@),
{
    proof {
        reveal(request_with);
    }
    let mut headers: Vec<Header> = Vec::new();
    header::push(&mut headers, Header::Via(Field::Typed(via)));
    header::push(&mut headers, Header::CallId(call_id));
    header::push(&mut headers, Header::From(Field::Typed(from)));
    header::push(&mut headers, Header::To(Field::Typed(to)));
    header::push(&mut headers, Header::CSeq(Field::Typed(CSeq { seq, method })));
    header::push(&mut headers, Header::MaxForwards(70));
    header::push(&mut headers, Header::UserAgent(user_agent.clone()));
    Request { method, uri: req_uri, version: Version::V2, headers, body: Vec::new() }
}

pub open spec fn as_branch_replaced(p: ParamView, branch: Seq<char>) -> ParamView {
    match p {
        ParamView::Branch(_) => ParamView::Branch(branch),
        _ => p,
    }
}

/// The Via with another branch.
pub open spec fn with_branch(via: ViaView, branch: Seq<char>) -> ViaView {
    ViaView {
        params: via.params.map_values(|p: ParamView| as_branch_replaced(p, branch)),
        ..via
    }
}

pub fn replace_branch(top: Via, branch: &String) -> (r: Via)
    ensures
        r@ == with_branch(top@, branch@),
{
    let mut params: Vec<Param> = Vec::new();
    let mut i: usize = 0;
    let ghost f = |p: ParamView| as_branch_replaced(p, branch@);
    while i < top.params.len()
        invariant
            i <= top.params.len(),
            f == (|p: ParamView| as_branch_replaced(p, branch@)),
            params.deep_view() == top.params.deep_view().take(i as int).map_values(f),
        decreases top.params.len() - i,
    {
        let p = match &top.params[i] {
            Param::Branch(_) => Param::Branch(branch.clone()),
            p => p.clone(),
        };
        let ghost before = params.deep_view();
        params.push(p);
        assert(params.deep_view() == before.push(p.deep_view()));
        assert(top.params.deep_view().take(i + 1).map_values(f)
            == top.params.deep_view().take(i as int).map_values(f).push(p.deep_view()));
        i = i + 1;
    }
    assert(top.params.deep_view().take(i as int) == top.params.deep_view());
    Via { version: top.version, transport: top.transport, uri: top.uri, params }
}

pub open spec fn as_any_route(h: HeaderView) -> Option<FieldView<NameAddrView>> {
    match h {
        HeaderView::Route(f) => Some(f),
        _ => None,
    }
}

/// The Route values, in order.
pub open spec fn routes(headers: Seq<HeaderView>) -> Seq<FieldView<NameAddrView>> {
    lists::all_of(headers, |h: HeaderView| as_any_route(h))
}

pub fn list_routes(headers: &Vec<Header>) -> (r: Vec<Field<NameAddr>>)
    ensures
        r.deep_view() == routes(headers.deep_view()),
{
    let mut r: Vec<Field<NameAddr>> = Vec::new();
    let mut i: usize = 0;
    while i < headers.len()
        invariant
            i <= headers.len(),
            r.deep_view() == routes(headers.deep_view().take(i as int)),
        decreases headers.len() - i,
    {
        proof {
            lists::lemma_all_of_step(
                headers.deep_view(),
                i as int,
                |h: HeaderView| as_any_route(h),
            );
        }
        if let Header::Route(f) = &headers[i] {
            let ghost before = r.deep_view();
            let f = f.clone();
            r.push(f);
            assert(r.deep_view() == before.push(f.deep_view()));
        }
        i = i + 1;
    }
    assert(headers.deep_view().take(i as int) == headers.deep_view());
    r
}

/// A list in the opposite order.
pub fn reversed(list: &Vec<Field<NameAddr>>) -> (r: Vec<Field<NameAddr>>)
    ensures
        r.deep_view() == list.deep_view().reverse(),
{
    let mut r: Vec<Field<NameAddr>> = Vec::new();
    let n: usize = list.len();
    let mut i: usize = 0;
    while i < n
        invariant
            i <= n,
            n == list.len(),
            r.deep_view() == list.deep_view().reverse().take(i as int),
        decreases n - i,
    {
        let f = list[n - 1 - i].clone();
        let ghost before = r.deep_view();
        r.push(f);
        assert(r.deep_view() == before.push(f.deep_view()));
        i = i + 1;
    }
    r
}

pub open spec fn route_header(f: FieldView<NameAddrView>) -> HeaderView {
    HeaderView::Route(f)
}

/// Route headers for a route set.
pub open spec fn route_headers(set: Seq<FieldView<NameAddrView>>) -> Seq<HeaderView> {
    set.map_values(|f: FieldView<NameAddrView>| route_header(f))
}

pub fn push_routes(headers: &mut Vec<Header>, set: &Vec<Field<NameAddr>>)
    ensures
        final(headers).deep_view() == old(headers).deep_view() + route_headers(set.deep_view()),
{
    let ghost before = headers.deep_view();
    let mut i: usize = 0;
    while i < set.len()
        invariant
            i <= set.len(),
            headers.deep_view() == before + route_headers(set.deep_view().take(i as int)),
        decreases set.len() - i,
    {
        header::push(headers, Header::Route(set[i].clone()));
        assert(route_headers(set.deep_view().take(i + 1)) == route_headers(
            set.deep_view().take(i as int),
        ).push(HeaderView::Route(set.deep_view()[i as int])));
        i = i + 1;
    }
    assert(set.deep_view().take(i as int) == set.deep_view());
}

/// The ACK for a response to an INVITE. For a 2xx it is a request of its own:
/// with a new branch, to the Contact of the response and along the recorded
/// route. For any other response it goes the way of the INVITE.
#[verifier::opaque]
pub open spec fn ack_for(
    original: RequestView,
    resp: ResponseView,
    branch: Seq<char>,
    user_agent: Seq<char>,
) -> Result<RequestView, ErrorView> {
    match (
        message::via_of(original.headers),
        message::from_of(original.headers),
        message::call_id_of(original.headers),
        message::cseq_of(original.headers),
        message::to_of(resp.headers),
    ) {
        (Err(e), _, _, _, _) => Err(e),
        (_, Err(e), _, _, _) => Err(e),
        (_, _, Err(e), _, _) => Err(e),
        (_, _, _, Err(e), _) => Err(e),
        (_, _, _, _, Err(e)) => Err(e),
        (Ok(via), Ok(from), Ok(call_id), Ok(cseq), Ok(to)) => {
            let accepted = resp.status_code.spec_kind() == StatusCodeKind::Successful;
            Ok(
                RequestView {
                    method: Method::Ack,
                    uri: if accepted {
                        match header::first_contact(resp.headers) {
                            Some(FieldView::Typed(c)) => c.uri,
                            _ => original.uri,
                        }
                    } else {
                        original.uri
                    },
                    version: original.version,
                    headers: seq![
                        HeaderView::Via(
                            FieldView::Typed(
                                if accepted {
                                    with_branch(via, branch)
                                } else {
                                    via
                                },
                            ),
                        ),
                    ] + route_headers(
                        if accepted {
                            message::record_routes(resp.headers).reverse()
                        } else {
                            routes(original.headers)
                        },
                    ) + seq![
                        HeaderView::From(FieldView::Typed(from)),
                        HeaderView::To(FieldView::Typed(to)),
                        HeaderView::CallId(call_id),
                        HeaderView::CSeq(
                            FieldView::Typed(CSeq { seq: cseq.seq, method: Method::Ack }),
                        ),
                        HeaderView::MaxForwards(70),
                        HeaderView::UserAgent(user_agent),
                        HeaderView::ContentLength(0),
                    ],
                    body: Seq::empty(),
                },
            )
        },
    }
}

pub fn make_ack(original: &Request, resp: &Response, branch: &String, user_agent: &String) -> (r:
    Result<Request, Error>)
    ensures
        error::result_view(r) == ack_for(original@, resp@, branch@, user_agent@),
{
    proof {
        reveal(ack_for);
    }
    let via = match message::top_via(&original.headers) {
        Ok(v) => v,
        Err(e) => return Err(e),
    };
    let from = match message::from_addr(&original.headers) {
        Ok(v) => v,
        Err(e) => return Err(e),
    };
    let call_id = match message::call_id(&original.headers) {
        Ok(v) => v,
        Err(e) => return Err(e),
    };
    let cseq = match message::cseq(&original.headers) {
        Ok(v) => v,
        Err(e) => return Err(e),
    };
    let to = match message::to_addr(&resp.headers) {
        Ok(v) => v,
        Err(e) => return Err(e),
    };
    let accepted = resp.status_code.kind() == StatusCodeKind::Successful;
    let mut headers: Vec<Header> = Vec::new();
    let uri = if accepted {
        header::push(&mut headers, Header::Via(Field::Typed(replace_branch(via, branch))));
        push_routes(&mut headers, &reversed(&message::list_record_routes(&resp.headers)));
        match header::find_contact(&resp.headers) {
            Some(Field::Typed(c)) => c.uri,
            _ => original.uri.clone(),
        }
    } else {
        header::push(&mut headers, Header::Via(Field::Typed(via)));
        push_routes(&mut headers, &list_routes(&original.headers));
        original.uri.clone()
    };
    header::push(&mut headers, Header::From(Field::Typed(from)));
    header::push(&mut headers, Header::To(Field::Typed(to)));
    header::push(&mut headers, Header::CallId(call_id));
    header::push(
        &mut headers,
        Header::CSeq(Field::Typed(CSeq { seq: cseq.seq, method: Method::Ack })),
    );
    header::push(&mut headers, Header::MaxForwards(70));
    header::push(&mut headers, Header::UserAgent(user_agent.clone()));
    header::push(&mut headers, Header::ContentLength(0));
    let r = Request {
        method: Method::Ack,
        uri,
        version: original.version,
        headers,
        body: Vec::new(),
    };
    assert(r@ == ack_for(original@, resp@, branch@, user_agent@)->Ok_0);
    Ok(r)
}

}
