//! The acknowledgement of provisional responses.

use super::dialog;
use super::dialog::{DialogInner, DialogView, RemoteReliableState, RemoteReliableView};
use super::requests;
use crate::error;
use crate::error::{Error, ErrorView};
use crate::sip::basic::Method;
use crate::sip::header;
use crate::sip::header::{CSeq, Header, HeaderKind, HeaderView};
use crate::sip::message;
use crate::sip::message::{Request, RequestView, Response, ResponseView};
use crate::text;
use crate::transaction::endpoint::{EndpointInner, EndpointView};
use crate::transport::sip_addr::{SipAddr, SipAddrView};
use vstd::prelude::*;
use vstd::string::*;

verus! {

/// The value of the RAck header for a provisional response.
pub open spec fn rack_text(rseq: u32, cseq: CSeq) -> Seq<char> {
    text::number_text(rseq as nat) + " "@ + text::number_text(cseq.seq as nat) + " "@
        + cseq.method.spec_name()
}

/// The PRACK for a provisional response, if it asks for one. A response that is
/// repeated gets the same PRACK, and one that is older than the last gets none.
pub open spec fn prack_for(
    d: DialogView,
    ep: EndpointView,
    addrs: Seq<SipAddrView>,
    branch: Seq<char>,
    resp: ResponseView,
) -> (DialogView, Result<Option<RequestView>, ErrorView>) {
    let rseq = match header::first_rseq(resp.headers) {
        Some(n) => n,
        None => None,
    };
    if !message::headers_list(resp.headers, HeaderKind::Require, "100rel"@) || rseq is None {
        (d, Ok(None))
    } else {
        let rseq = rseq->0;
        match message::cseq_of(resp.headers) {
            Err(e) => (d, Err(e)),
            Ok(cseq) => match d.remote_reliable {
                Some(last) if last.last_rseq == rseq => (d, Ok(Some(last.prack_request))),
                Some(last) if last.last_rseq > rseq => (d, Ok(None)),
                _ => {
                    let seq = dialog::next_seq(d.local_seq);
                    let rack = HeaderView::RAck(rack_text(rseq, cseq));
                    let headers = if d.supports_100rel {
                        seq![rack, HeaderView::Supported("100rel"@)]
                    } else {
                        seq![rack]
                    };
                    let numbered = DialogView { local_seq: seq, ..d };
                    match requests::next_request(
                        numbered,
                        ep,
                        addrs,
                        branch,
                        Method::PRack,
                        Some(seq),
                        Some(headers),
                        Seq::empty(),
                    ) {
                        (after, Err(e)) => (after, Err(e)),
                        (after, Ok(prack)) => (
                            DialogView {
                                remote_reliable: Some(
                                    RemoteReliableView { last_rseq: rseq, prack_request: prack },
                                ),
                                ..after
                            },
                            Ok(Some(prack)),
                        ),
                    }
                },
            },
        }
    }
}

fn rack_value(rseq: u32, cseq: CSeq) -> (s: String)
    ensures
        s@ == rack_text(rseq, cseq),
{
    let mut s = text::number_to_text(rseq);
    s.append(" ");
    s.append(text::number_to_text(cseq.seq).as_str());
    s.append(" ");
    s.append(cseq.method.name());
    s
}

impl DialogInner {
    /// Writes the PRACK for a provisional response, if it asks for one.
    pub fn prepare_prack_request(
        &mut self,
        ep: &EndpointInner,
        addrs: &Vec<SipAddr>,
        branch: &String,
        resp: &Response,
    ) -> (r: Result<Option<Request>, Error>)
        ensures
            (final(self)@, error::result_view(r)) == prack_for(
                old(self)@,
                ep@,
                addrs.deep_view(),
                branch@,
                resp@,
            ),
    {
        if !message::header_contains_token(&resp.headers, HeaderKind::Require, "100rel") {
            return Ok(None);
        }
        let Some(Some(rseq)) = header::find_rseq(&resp.headers) else {
            return Ok(None);
        };
        let cseq = match message::cseq(&resp.headers) {
            Ok(c) => c,
            Err(e) => return Err(e),
        };
        if let Some(state) = &self.remote_reliable {
            if state.last_rseq == rseq {
                return Ok(Some(state.prack_request.clone()));
            }
            if state.last_rseq > rseq {
                return Ok(None);
            }
        }
        let mut headers: Vec<Header> = Vec::new();
        headers.push(Header::RAck(rack_value(rseq, cseq)));
        if self.supports_100rel {
            headers.push(Header::Supported("100rel".to_owned()));
        }
        let ghost given = headers.deep_view();
        proof {
            let rack = HeaderView::RAck(rack_text(rseq, cseq));
            if old(self)@.supports_100rel {
                assert(given == seq![rack, HeaderView::Supported("100rel"@)]);
            } else {
                assert(given == seq![rack]);
            }
        }
        let seq: u32 = self.increment_local_seq();
        match self.make_request(
            ep,
            addrs,
            branch,
            Method::PRack,
            Some(seq),
            Some(headers),
            None,
        ) {
            Ok(prack) => {
                self.remote_reliable = Some(
                    RemoteReliableState { last_rseq: rseq, prack_request: prack.clone() },
                );
                Ok(Some(prack))
            },
            Err(e) => Err(e),
        }
    }
}

}
