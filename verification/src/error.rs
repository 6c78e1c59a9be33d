//! What can go wrong.

use crate::dialog::id::{DialogId, DialogIdView};
use crate::sip::header::HeaderKind;
use crate::sip::status::StatusCode;
use crate::sip::uri::{HostWithPort, HostWithPortView};
use crate::transaction::key::TransactionKey;
use crate::transport::sip_addr::{SipAddr, SipAddrView};
use vstd::prelude::*;

verus! {

#[derive(Debug)]
pub enum Error {
    /// A message lacks a header.
    MissingHeader(HeaderKind),
    /// A header's value cannot be read.
    MalformedHeader(HeaderKind),
    /// A Session-ID is not made of 32 hexadecimal digits.
    InvalidSessionId,
    TransactionError(String, TransactionKey),
    DialogError(String, DialogId, StatusCode),
    EndpointError(String),
    TransportLayerError(String, SipAddr),
    /// A host could not be resolved: why, and which.
    DnsResolutionError(String, HostWithPort),
    Error(String),
}

#[verifier::ext_equal]
pub enum ErrorView {
    MissingHeader(HeaderKind),
    MalformedHeader(HeaderKind),
    InvalidSessionId,
    TransactionError(Seq<char>, Seq<char>),
    DialogError(Seq<char>, DialogIdView, StatusCode),
    EndpointError(Seq<char>),
    TransportLayerError(Seq<char>, SipAddrView),
    DnsResolutionError(Seq<char>, HostWithPortView),
    Error(Seq<char>),
}

impl DeepView for Error {
    type V = ErrorView;

    open spec fn deep_view(&self) -> ErrorView {
        match self {
            Error::MissingHeader(k) => ErrorView::MissingHeader(*k),
            Error::MalformedHeader(k) => ErrorView::MalformedHeader(*k),
            Error::InvalidSessionId => ErrorView::InvalidSessionId,
            Error::TransactionError(m, key) => ErrorView::TransactionError(m@, key@),
            Error::DialogError(m, id, status) => ErrorView::DialogError(m@, id@, *status),
            Error::EndpointError(m) => ErrorView::EndpointError(m@),
            Error::TransportLayerError(m, addr) => ErrorView::TransportLayerError(m@, addr@),
            Error::DnsResolutionError(m, host) => ErrorView::DnsResolutionError(
                m@,
                host.deep_view(),
            ),
            Error::Error(m) => ErrorView::Error(m@),
        }
    }
}

impl View for Error {
    type V = ErrorView;

    open spec fn view(&self) -> ErrorView {
        self.deep_view()
    }
}

impl Clone for Error {
    fn clone(&self) -> (r: Self)
        ensures
            r.deep_view() == self.deep_view(),
    {
        match self {
            Error::MissingHeader(k) => Error::MissingHeader(*k),
            Error::MalformedHeader(k) => Error::MalformedHeader(*k),
            Error::InvalidSessionId => Error::InvalidSessionId,
            Error::TransactionError(m, key) => Error::TransactionError(m.clone(), key.clone()),
            Error::DialogError(m, id, status) => Error::DialogError(m.clone(), id.clone(), *status),
            Error::EndpointError(m) => Error::EndpointError(m.clone()),
            Error::TransportLayerError(m, addr) => Error::TransportLayerError(
                m.clone(),
                addr.clone(),
            ),
            Error::DnsResolutionError(m, host) => Error::DnsResolutionError(m.clone(), host.clone()),
            Error::Error(m) => Error::Error(m.clone()),
        }
    }
}

/// A result with its value and its error taken by their views.
pub open spec fn result_view<T: DeepView>(r: Result<T, Error>) -> Result<T::V, ErrorView> {
    match r {
        Ok(v) => Ok(v.deep_view()),
        Err(e) => Err(e.deep_view()),
    }
}

}
