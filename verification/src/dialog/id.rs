//! What names a dialog.

use crate::error;
use crate::error::{Error, ErrorView};
use crate::sip::header::{Header, HeaderView};
use crate::sip::message;
use crate::sip::message::{Request, Response};
use crate::transaction::key;
use crate::transaction::key::TransactionRole;
use vstd::prelude::*;
use vstd::string::*;

verus! {

/// A dialog, by its Call-ID and the tags of its two ends.
#[derive(Debug)]
pub struct DialogId {
    pub call_id: String,
    pub local_tag: String,
    pub remote_tag: String,
}

#[verifier::ext_equal]
pub struct DialogIdView {
    pub call_id: Seq<char>,
    pub local_tag: Seq<char>,
    pub remote_tag: Seq<char>,
}

impl DeepView for DialogId {
    type V = DialogIdView;

    open spec fn deep_view(&self) -> DialogIdView {
        DialogIdView {
            call_id: self.call_id@,
            local_tag: self.local_tag@,
            remote_tag: self.remote_tag@,
        }
    }
}

impl View for DialogId {
    type V = DialogIdView;

    open spec fn view(&self) -> DialogIdView {
        self.deep_view()
    }
}

impl Clone for DialogId {
    fn clone(&self) -> (r: Self)
        ensures
            r == *self,
    {
        DialogId {
            call_id: self.call_id.clone(),
            local_tag: self.local_tag.clone(),
            remote_tag: self.remote_tag.clone(),
        }
    }
}

impl DialogIdView {
    /// The dialog's name as one text.
    pub open spec fn text(self) -> Seq<char> {
        self.call_id + "-"@ + self.local_tag + "-"@ + self.remote_tag
    }
}

impl DialogId {
    pub fn same(&self, other: &DialogId) -> (r: bool)
        ensures
            r == (self@ == other@),
    {
        self.call_id == other.call_id && self.local_tag == other.local_tag && self.remote_tag
            == other.remote_tag
    }

    pub fn text(&self) -> (s: String)
        ensures
            s@ == self@.text(),
    {
        let mut s = self.call_id.clone();
        s.append("-");
        s.append(self.local_tag.as_str());
        s.append("-");
        s.append(self.remote_tag.as_str());
        s
    }
}

/// The dialog that a message belongs to, as the side `role` sees it: the client
/// is the From end and the server the To end. A tag that is absent is empty.
pub open spec fn dialog_of(headers: Seq<HeaderView>, role: TransactionRole) -> Result<
    DialogIdView,
    ErrorView,
> {
    match (message::call_id_of(headers), message::from_of(headers), message::to_of(headers)) {
        (Err(e), _, _) => Err(e),
        (_, Err(e), _) => Err(e),
        (_, _, Err(e)) => Err(e),
        (Ok(call_id), Ok(from), Ok(to)) => Ok(
            match role {
                TransactionRole::Client => DialogIdView {
                    call_id,
                    local_tag: key::or_empty(from.tag()),
                    remote_tag: key::or_empty(to.tag()),
                },
                TransactionRole::Server => DialogIdView {
                    call_id,
                    local_tag: key::or_empty(to.tag()),
                    remote_tag: key::or_empty(from.tag()),
                },
            },
        ),
    }
}

fn tag_or_empty(tag: Option<String>) -> (r: String)
    ensures
        r@ == key::or_empty(tag.deep_view()),
{
    match tag {
        Some(t) => t,
        None => String::new(),
    }
}

impl DialogId {
    /// The dialog that headers name.
    pub fn from_headers(headers: &Vec<Header>, role: TransactionRole) -> (r: Result<DialogId, Error>)
        ensures
            error::result_view(r) == dialog_of(headers.deep_view(), role),
    {
        let call_id = match message::call_id(headers) {
            Ok(v) => v,
            Err(e) => return Err(e),
        };
        let from = match message::from_addr(headers) {
            Ok(v) => v,
            Err(e) => return Err(e),
        };
        let to = match message::to_addr(headers) {
            Ok(v) => v,
            Err(e) => return Err(e),
        };
        let from_tag = tag_or_empty(from.tag());
        let to_tag = tag_or_empty(to.tag());
        Ok(
            match role {
                TransactionRole::Client => DialogId {
                    call_id,
                    local_tag: from_tag,
                    remote_tag: to_tag,
                },
                TransactionRole::Server => DialogId {
                    call_id,
                    local_tag: to_tag,
                    remote_tag: from_tag,
                },
            },
        )
    }

    pub fn from_request(req: &Request, role: TransactionRole) -> (r: Result<DialogId, Error>)
        ensures
            error::result_view(r) == dialog_of(req@.headers, role),
    {
        DialogId::from_headers(&req.headers, role)
    }

    pub fn from_response(resp: &Response, role: TransactionRole) -> (r: Result<DialogId, Error>)
        ensures
            error::result_view(r) == dialog_of(resp@.headers, role),
    {
        DialogId::from_headers(&resp.headers, role)
    }
}

/// The two ends of a dialog see the same dialog with the tags exchanged.
pub proof fn law_ends_see_tags_exchanged(headers: Seq<HeaderView>)
    ensures
        match (
            dialog_of(headers, TransactionRole::Client),
            dialog_of(headers, TransactionRole::Server),
        ) {
            (Ok(c), Ok(s)) => c.call_id == s.call_id && c.local_tag == s.remote_tag && c.remote_tag
                == s.local_tag,
            (Err(a), Err(b)) => a == b,
            _ => false,
        },
{
}

}
