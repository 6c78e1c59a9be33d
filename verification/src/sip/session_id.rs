//! The Session-ID header.

use crate::error::{Error, ErrorView};
use crate::text;
use vstd::prelude::*;
use vstd::string::*;

verus! {

/// A Session-ID: the sender's identifier and, where it is given, the one that
/// the sender has learned of its peer.
#[derive(Debug)]
pub struct SessionId {
    pub local: String,
    pub remote: Option<String>,
}

#[verifier::ext_equal]
pub struct SessionIdView {
    pub local: Seq<char>,
    pub remote: Option<Seq<char>>,
}

impl DeepView for SessionId {
    type V = SessionIdView;

    open spec fn deep_view(&self) -> SessionIdView {
        SessionIdView { local: self.local@, remote: self.remote.deep_view() }
    }
}

impl View for SessionId {
    type V = SessionIdView;

    open spec fn view(&self) -> SessionIdView {
        self.deep_view()
    }
}

impl Clone for SessionId {
    fn clone(&self) -> (r: Self)
        ensures
            r.deep_view() == self.deep_view(),
    {
        SessionId { local: self.local.clone(), remote: self.remote.clone() }
    }
}

pub open spec fn is_hex(c: char) -> bool {
    ('0' <= c <= '9') || ('a' <= c <= 'f') || ('A' <= c <= 'F')
}

/// 32 hexadecimal digits.
pub open spec fn is_uuid(s: Seq<char>) -> bool {
    s.len() == 32 && forall|i: int| 0 <= i < 32 ==> is_hex(#[trigger] s[i])
}

/// The identifier that stands for none.
pub open spec fn nil_uuid() -> Seq<char> {
    "00000000000000000000000000000000"@
}

/// `s` without dashes and in lower case.
pub open spec fn undashed(s: Seq<char>) -> Seq<char> {
    s.filter(|c: char| c != '-').map_values(|c: char| text::ascii_lower(c))
}

/// The identifier that `s` names, if it is one.
pub open spec fn identity_in(s: Seq<char>) -> Option<Seq<char>> {
    if is_uuid(s) && s != nil_uuid() {
        Some(s)
    } else {
        None
    }
}

impl SessionIdView {
    /// The sender's identifier, unless it is nil or malformed.
    pub open spec fn local_uuid(self) -> Option<Seq<char>> {
        identity_in(self.local)
    }

    /// The peer's identifier, unless it is absent, nil or malformed.
    pub open spec fn remote_uuid(self) -> Option<Seq<char>> {
        match self.remote {
            Some(r) => identity_in(r),
            None => None,
        }
    }
}

/// Tests for 32 hexadecimal digits.
pub fn is_valid(s: &str) -> (r: bool)
    ensures
        r == is_uuid(s@),
{
    let n: usize = s.unicode_len();
    if n != 32 {
        return false;
    }
    let mut i: usize = 0;
    while i < 32
        invariant
            s@.len() == 32,
            i <= 32,
            forall|j: int| 0 <= j < i ==> is_hex(#[trigger] s@[j]),
        decreases 32 - i,
    {
        let c = s.get_char(i);
        if !(('0' <= c && c <= '9') || ('a' <= c && c <= 'f') || ('A' <= c && c <= 'F')) {
            assert(!is_hex(s@[i as int]));
            return false;
        }
        i = i + 1;
    }
    true
}

pub fn nil() -> (r: String)
    ensures
        r@ == nil_uuid(),
{
    "00000000000000000000000000000000".to_owned()
}

fn identity(s: &String) -> (r: Option<String>)
    ensures
        r.deep_view() == identity_in(s@),
{
    if is_valid(s.as_str()) && *s != nil() {
        Some(s.clone())
    } else {
        None
    }
}

fn lower(c: char) -> (r: char)
    ensures
        r == text::ascii_lower(c),
{
    if 'A' <= c && c <= 'Z' {
        (c as u8 + 32) as char
    } else {
        c
    }
}

impl SessionId {
    /// Whether the sender's identifier has the form of one.
    pub fn is_valid_header(&self) -> (r: bool)
        ensures
            r == is_uuid(self@.local),
    {
        is_valid(self.local.as_str())
    }

    pub fn local_uuid(&self) -> (r: Option<String>)
        ensures
            r.deep_view() == self@.local_uuid(),
    {
        identity(&self.local)
    }

    pub fn remote_uuid(&self) -> (r: Option<String>)
        ensures
            r.deep_view() == self@.remote_uuid(),
    {
        match &self.remote {
            Some(r) => identity(r),
            None => None,
        }
    }

    /// Brings an identifier, which may be written with dashes and in upper case,
    /// into the form of the wire.
    pub fn normalize(raw: &str) -> (r: Result<String, Error>)
        ensures
            match r {
                Ok(s) => is_uuid(undashed(raw@)) && s@ == undashed(raw@),
                Err(e) => !is_uuid(undashed(raw@)) && e@ == ErrorView::InvalidSessionId,
            },
    {
        let n: usize = raw.unicode_len();
        let mut s = String::new();
        let mut i: usize = 0;
        let ghost keep = |c: char| c != '-';
        let ghost low = |c: char| text::ascii_lower(c);
        while i < n
            invariant
                n == raw@.len(),
                i <= n,
                keep == (|c: char| c != '-'),
                low == (|c: char| text::ascii_lower(c)),
                s@ == raw@.take(i as int).filter(keep).map_values(low),
            decreases n - i,
        {
            let c = raw.get_char(i);
            proof {
                crate::lists::lemma_filter_step(raw@, i as int, keep);
            }
            if c != '-' {
                let ghost before = raw@.take(i as int).filter(keep);
                text::push_char(&mut s, lower(c));
                assert(before.push(c).map_values(low) == before.map_values(low).push(low(c)));
            }
            i = i + 1;
        }
        assert(raw@.take(n as int) == raw@);
        if is_valid(s.as_str()) {
            Ok(s)
        } else {
            Err(Error::InvalidSessionId)
        }
    }

    /// The header that carries both identifiers.
    pub fn from_pair(local: &str, remote: &str) -> (r: Result<SessionId, Error>)
        ensures
            match r {
                Ok(sid) => is_uuid(local@) && is_uuid(remote@) && sid@ == (SessionIdView {
                    local: local@,
                    remote: Some(remote@),
                }),
                Err(e) => !(is_uuid(local@) && is_uuid(remote@)) && e@
                    == ErrorView::InvalidSessionId,
            },
    {
        if is_valid(local) && is_valid(remote) {
            Ok(SessionId { local: local.to_owned(), remote: Some(remote.to_owned()) })
        } else {
            Err(Error::InvalidSessionId)
        }
    }

    /// The header of a sender that does not know its peer's identifier yet.
    pub fn from_local(local: &str) -> (r: Result<SessionId, Error>)
        ensures
            match r {
                Ok(sid) => is_uuid(local@) && sid@ == (SessionIdView {
                    local: local@,
                    remote: Some(nil_uuid()),
                }),
                Err(e) => !is_uuid(local@) && e@ == ErrorView::InvalidSessionId,
            },
    {
        if is_valid(local) {
            Ok(SessionId { local: local.to_owned(), remote: Some(nil()) })
        } else {
            Err(Error::InvalidSessionId)
        }
    }
}

}
