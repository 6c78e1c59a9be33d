//! What names a transaction.

use crate::error;
use crate::error::{Error, ErrorView};
use crate::sip::basic::Method;
use crate::sip::header::{CSeq, Header, HeaderView};
use crate::sip::message;
use crate::sip::message::{Request, RequestView, Response, ResponseView};
use crate::sip::uri;
use crate::text;
use vstd::prelude::*;
use vstd::string::*;

verus! {

/// The side of a transaction or of a dialog.
#[derive(Clone, Copy, Debug, PartialEq, Eq, Structural)]
pub enum TransactionRole {
    Client,
    Server,
}

/// The name under which a transaction is found again.
#[derive(Debug)]
pub struct TransactionKey(pub String);

impl View for TransactionKey {
    type V = Seq<char>;

    open spec fn view(&self) -> Seq<char> {
        self.0@
    }
}

impl DeepView for TransactionKey {
    type V = Seq<char>;

    open spec fn deep_view(&self) -> Seq<char> {
        self.0@
    }
}

impl Clone for TransactionKey {
    fn clone(&self) -> (r: Self)
        ensures
            r == *self,
    {
        TransactionKey(self.0.clone())
    }
}

/// The text, or the empty text where there is none.
pub open spec fn or_empty(s: Option<Seq<char>>) -> Seq<char> {
    match s {
        Some(s) => s,
        None => Seq::empty(),
    }
}

fn unwrap_or_empty(s: Option<String>) -> (r: String)
    ensures
        r@ == or_empty(s.deep_view()),
{
    match s {
        Some(s) => s,
        None => String::new(),
    }
}

/// The name of a transaction: its side, its method and the number, Call-ID, From
/// tag and branch of its request.
pub open spec fn key_text(
    role: TransactionRole,
    cseq: CSeq,
    call_id: Seq<char>,
    from_tag: Seq<char>,
    branch: Seq<char>,
) -> Seq<char> {
    let side = match role {
        TransactionRole::Client => "c."@,
        TransactionRole::Server => "s."@,
    };
    side + cseq.method.spec_name() + "_"@ + text::number_text(cseq.seq as nat) + "_"@ + call_id
        + "_"@ + from_tag + "_"@ + branch
}

/// The name that the headers of a message give its transaction, with `method`.
pub open spec fn key_of_headers(
    headers: Seq<HeaderView>,
    role: TransactionRole,
    method: Option<Method>,
) -> Result<Seq<char>, ErrorView> {
    match (
        message::via_of(headers),
        message::cseq_of(headers),
        message::call_id_of(headers),
        message::from_of(headers),
    ) {
        (Err(e), _, _, _) => Err(e),
        (_, Err(e), _, _) => Err(e),
        (_, _, Err(e), _) => Err(e),
        (_, _, _, Err(e)) => Err(e),
        (Ok(via), Ok(cseq), Ok(call_id), Ok(from)) => Ok(
            key_text(
                role,
                CSeq {
                    seq: cseq.seq,
                    method: match method {
                        Some(m) => m,
                        None => cseq.method,
                    },
                },
                call_id,
                or_empty(from.tag()),
                or_empty(uri::branch_in(via.params)),
            ),
        ),
    }
}

/// The method under which a request is found: on the server side an ACK and a
/// CANCEL belong to the INVITE.
pub open spec fn key_method(method: Method, role: TransactionRole) -> Method {
    if role == TransactionRole::Server && (method == Method::Ack || method == Method::Cancel) {
        Method::Invite
    } else {
        method
    }
}

pub open spec fn key_of_request(req: RequestView, role: TransactionRole) -> Result<
    Seq<char>,
    ErrorView,
> {
    key_of_headers(req.headers, role, Some(key_method(req.method, role)))
}

pub open spec fn key_of_response(resp: ResponseView, role: TransactionRole) -> Result<
    Seq<char>,
    ErrorView,
> {
    key_of_headers(resp.headers, role, None)
}

fn key_from(headers: &Vec<Header>, role: TransactionRole, method: Option<Method>) -> (r: Result<
    TransactionKey,
    Error,
>)
    ensures
        error::result_view(r) == key_of_headers(headers.deep_view(), role, method),
{
    let via = match message::top_via(headers) {
        Ok(v) => v,
        Err(e) => return Err(e),
    };
    let cseq = match message::cseq(headers) {
        Ok(v) => v,
        Err(e) => return Err(e),
    };
    let call_id = match message::call_id(headers) {
        Ok(v) => v,
        Err(e) => return Err(e),
    };
    let from = match message::from_addr(headers) {
        Ok(v) => v,
        Err(e) => return Err(e),
    };
    let mut s = match role {
        TransactionRole::Client => "c.".to_owned(),
        TransactionRole::Server => "s.".to_owned(),
    };
    let method = match method {
        Some(m) => m,
        None => cseq.method,
    };
    s.append(method.name());
    s.append("_");
    s.append(text::number_to_text(cseq.seq).as_str());
    s.append("_");
    s.append(call_id.as_str());
    s.append("_");
    s.append(unwrap_or_empty(from.tag()).as_str());
    s.append("_");
    s.append(unwrap_or_empty(uri::find_branch(&via.params)).as_str());
    Ok(TransactionKey(s))
}

impl TransactionKey {
    /// The transaction that a request opens or belongs to.
    pub fn from_request(req: &Request, role: TransactionRole) -> (r: Result<TransactionKey, Error>)
        ensures
            error::result_view(r) == key_of_request(req@, role),
    {
        let method = if role == TransactionRole::Server && (req.method == Method::Ack || req.method
            == Method::Cancel) {
            Method::Invite
        } else {
            req.method
        };
        key_from(&req.headers, role, Some(method))
    }

    /// The transaction that a response belongs to.
    pub fn from_response(resp: &Response, role: TransactionRole) -> (r: Result<
        TransactionKey,
        Error,
    >)
        ensures
            error::result_view(r) == key_of_response(resp@, role),
    {
        key_from(&resp.headers, role, None)
    }
}

/// A response whose Via, CSeq, Call-ID and From are those of the request finds
/// the client transaction that sent the request.
pub proof fn law_response_finds_its_request(req: RequestView, resp: ResponseView)
    requires
        message::via_of(resp.headers) == message::via_of(req.headers),
        message::cseq_of(resp.headers) == message::cseq_of(req.headers),
        message::call_id_of(resp.headers) == message::call_id_of(req.headers),
        message::from_of(resp.headers) == message::from_of(req.headers),
        message::cseq_of(req.headers) matches Ok(c) ==> c.method == req.method,
    ensures
        key_of_response(resp, TransactionRole::Client) == key_of_request(
            req,
            TransactionRole::Client,
        ),
{
}

}
