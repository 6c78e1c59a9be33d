//! The kinds of dialogs.

use super::dialog::{DialogInner, DialogState, DialogView};
use super::id::DialogId;
use super::invite_dialog::InviteDialog;
use crate::error::{Error, ErrorView};
use crate::sip::header::{Field, FieldView};
use crate::sip::status::StatusCode;
use crate::sip::uri::{NameAddr, Uri, UriView};
use crate::transaction::key::TransactionRole;
use vstd::prelude::*;
use vstd::string::*;

verus! {

/// The dialog of a subscription that has come in.
pub struct ServerSubscriptionDialog {
    pub inner: DialogInner,
}

/// The dialog of a subscription that was asked for.
pub struct ClientSubscriptionDialog {
    pub inner: DialogInner,
}

/// The dialog of a publication that has come in.
pub struct ServerPublicationDialog {
    pub inner: DialogInner,
}

/// The dialog of a publication that was sent.
pub struct ClientPublicationDialog {
    pub inner: DialogInner,
}

/// A dialog of any kind.
pub enum Dialog {
    Invite(InviteDialog),
    ServerSubscription(ServerSubscriptionDialog),
    ClientSubscription(ClientSubscriptionDialog),
    ServerPublication(ServerPublicationDialog),
    ClientPublication(ClientPublicationDialog),
}

/// What a dialog is for.
#[derive(Clone, Copy, Debug, PartialEq, Eq, Structural)]
pub enum DialogKind {
    Invite,
    ServerSubscription,
    ClientSubscription,
    ServerPublication,
    ClientPublication,
}

/// A dialog and what it is for.
#[verifier::ext_equal]
pub struct AnyDialogView {
    pub kind: DialogKind,
    pub dialog: DialogView,
}

impl View for Dialog {
    type V = AnyDialogView;

    open spec fn view(&self) -> AnyDialogView {
        match self {
            Dialog::Invite(d) => AnyDialogView { kind: DialogKind::Invite, dialog: d.inner@ },
            Dialog::ServerSubscription(d) => AnyDialogView {
                kind: DialogKind::ServerSubscription,
                dialog: d.inner@,
            },
            Dialog::ClientSubscription(d) => AnyDialogView {
                kind: DialogKind::ClientSubscription,
                dialog: d.inner@,
            },
            Dialog::ServerPublication(d) => AnyDialogView {
                kind: DialogKind::ServerPublication,
                dialog: d.inner@,
            },
            Dialog::ClientPublication(d) => AnyDialogView {
                kind: DialogKind::ClientPublication,
                dialog: d.inner@,
            },
        }
    }
}

impl Dialog {
    pub fn kind(&self) -> (k: DialogKind)
        ensures
            k == self@.kind,
    {
        match self {
            Dialog::Invite(_) => DialogKind::Invite,
            Dialog::ServerSubscription(_) => DialogKind::ServerSubscription,
            Dialog::ClientSubscription(_) => DialogKind::ClientSubscription,
            Dialog::ServerPublication(_) => DialogKind::ServerPublication,
            Dialog::ClientPublication(_) => DialogKind::ClientPublication,
        }
    }

    fn inner(&self) -> (r: &DialogInner)
        ensures
            r@ == self@.dialog,
    {
        match self {
            Dialog::Invite(d) => &d.inner,
            Dialog::ServerSubscription(d) => &d.inner,
            Dialog::ClientSubscription(d) => &d.inner,
            Dialog::ServerPublication(d) => &d.inner,
            Dialog::ClientPublication(d) => &d.inner,
        }
    }

    /// The dialog of an INVITE, at either end of it.
    pub fn from_inner(role: TransactionRole, inner: DialogInner) -> (r: Dialog)
        ensures
            r@ == (AnyDialogView { kind: DialogKind::Invite, dialog: inner@ }),
    {
        Dialog::Invite(InviteDialog::from_inner(inner))
    }

    pub fn id(&self) -> (r: DialogId)
        ensures
            r@ == self@.dialog.id,
    {
        self.inner().id.clone()
    }

    pub fn state(&self) -> (r: DialogState)
        ensures
            r@ == self@.dialog.state,
    {
        self.inner().state.clone()
    }

    pub fn from(&self) -> (r: &NameAddr)
        ensures
            r@ == self@.dialog.from,
    {
        &self.inner().from
    }

    pub fn to(&self) -> (r: NameAddr)
        ensures
            r@ == self@.dialog.to,
    {
        self.inner().to.clone()
    }

    /// The URI of the peer's Contact, if it can be read.
    pub fn remote_contact(&self) -> (r: Option<Uri>)
        ensures
            r.deep_view() == self@.dialog.remote_contact_uri(),
    {
        self.inner().remote_contact()
    }

    pub fn can_cancel(&self) -> (r: bool)
        ensures
            r == self@.dialog.state.can_cancel(),
    {
        self.inner().can_cancel()
    }

    /// Notes that the dialog is no longer in the registry.
    pub fn on_remove(&mut self)
        ensures
            final(self)@ == (AnyDialogView {
                dialog: DialogView { is_removed: true, ..old(self)@.dialog },
                ..old(self)@
            }),
    {
        match self {
            Dialog::Invite(d) => d.inner.on_remove(),
            Dialog::ServerSubscription(d) => d.inner.on_remove(),
            Dialog::ClientSubscription(d) => d.inner.on_remove(),
            Dialog::ServerPublication(d) => d.inner.on_remove(),
            Dialog::ClientPublication(d) => d.inner.on_remove(),
        }
    }

    /// Notes where the peer is, as a response such as 200 tells it.
    pub fn set_remote_target(&mut self, uri: Uri, contact: Option<Field<NameAddr>>)
        ensures
            final(self)@ == (AnyDialogView {
                dialog: DialogView {
                    remote_uri: uri@,
                    remote_contact: contact.deep_view(),
                    ..old(self)@.dialog
                },
                ..old(self)@
            }),
    {
        match self {
            Dialog::Invite(d) => d.inner.set_remote_target(uri, contact),
            Dialog::ServerSubscription(d) => d.inner.set_remote_target(uri, contact),
            Dialog::ClientSubscription(d) => d.inner.set_remote_target(uri, contact),
            Dialog::ServerPublication(d) => d.inner.set_remote_target(uri, contact),
            Dialog::ClientPublication(d) => d.inner.set_remote_target(uri, contact),
        }
    }

    /// The dialog as a subscription, if it can be one. The dialog of an INVITE
    /// becomes one of its own end, and all that is known of it stays.
    pub fn as_subscription(self) -> (r: Option<Dialog>)
        ensures
            match subscription_kind(self@.kind, self@.dialog.role) {
                Some(kind) => r matches Some(d) && d@ == (AnyDialogView { kind, ..self@ }),
                None => r is None,
            },
    {
        match self {
            Dialog::Invite(d) => Some(d.as_subscription()),
            Dialog::ServerSubscription(d) => Some(Dialog::ServerSubscription(d)),
            Dialog::ClientSubscription(d) => Some(Dialog::ClientSubscription(d)),
            _ => None,
        }
    }
}

/// The kind of subscription that a dialog of a kind and an end can be.
pub open spec fn subscription_kind(kind: DialogKind, role: TransactionRole) -> Option<DialogKind> {
    match kind {
        DialogKind::Invite => Some(
            match role {
                TransactionRole::Server => DialogKind::ServerSubscription,
                TransactionRole::Client => DialogKind::ClientSubscription,
            },
        ),
        DialogKind::ServerSubscription | DialogKind::ClientSubscription => Some(kind),
        _ => None,
    }
}

/// The dialog of an INVITE that has come in.
pub struct ServerInviteDialog {
    pub inner: DialogInner,
}

/// The dialog of an INVITE that was sent.
pub struct ClientInviteDialog {
    pub inner: DialogInner,
}

impl InviteDialog {
    pub fn from_server(d: ServerInviteDialog) -> (r: InviteDialog)
        ensures
            r@ == d.inner@,
    {
        InviteDialog { inner: d.inner }
    }

    pub fn from_client(d: ClientInviteDialog) -> (r: InviteDialog)
        ensures
            r@ == d.inner@,
    {
        InviteDialog { inner: d.inner }
    }

    /// The dialog as a subscription at the same end of it.
    pub fn as_subscription(self) -> (r: Dialog)
        ensures
            r@.dialog == self@,
            Some(r@.kind) == subscription_kind(DialogKind::Invite, self@.role),
    {
        match self.role() {
            TransactionRole::Server => Dialog::ServerSubscription(
                ServerSubscriptionDialog { inner: self.inner },
            ),
            TransactionRole::Client => Dialog::ClientSubscription(
                ClientSubscriptionDialog { inner: self.inner },
            ),
        }
    }

    /// The dialog as one of a server, if it is.
    pub fn try_into_server(self) -> (r: Result<ServerInviteDialog, Error>)
        ensures
            match r {
                Ok(d) => self@.role == TransactionRole::Server && d.inner@ == self@,
                Err(e) => self@.role != TransactionRole::Server && e@ == ErrorView::DialogError(
                    "InviteDialog is not a Server dialog"@,
                    self@.id,
                    StatusCode::BadRequest,
                ),
            },
    {
        if self.role() != TransactionRole::Server {
            return Err(
                Error::DialogError(
                    "InviteDialog is not a Server dialog".to_owned(),
                    self.id(),
                    StatusCode::BadRequest,
                ),
            );
        }
        Ok(ServerInviteDialog { inner: self.inner })
    }

    /// The dialog as one of a client, if it is.
    pub fn try_into_client(self) -> (r: Result<ClientInviteDialog, Error>)
        ensures
            match r {
                Ok(d) => self@.role == TransactionRole::Client && d.inner@ == self@,
                Err(e) => self@.role != TransactionRole::Client && e@ == ErrorView::DialogError(
                    "InviteDialog is not a Client dialog"@,
                    self@.id,
                    StatusCode::BadRequest,
                ),
            },
    {
        if self.role() != TransactionRole::Client {
            return Err(
                Error::DialogError(
                    "InviteDialog is not a Client dialog".to_owned(),
                    self.id(),
                    StatusCode::BadRequest,
                ),
            );
        }
        Ok(ClientInviteDialog { inner: self.inner })
    }
}

impl DialogView {
    /// The URI of the peer's Contact, if it can be read.
    pub open spec fn remote_contact_uri(self) -> Option<UriView> {
        match self.remote_contact {
            Some(FieldView::Typed(c)) => Some(c.uri),
            _ => None,
        }
    }
}

impl DialogInner {
    /// The URI of the peer's Contact, if it can be read.
    pub fn remote_contact(&self) -> (r: Option<Uri>)
        ensures
            r.deep_view() == self@.remote_contact_uri(),
    {
        match &self.remote_contact {
            Some(Field::Typed(c)) => Some(c.uri.clone()),
            _ => None,
        }
    }

    /// Notes that the dialog is no longer in the registry.
    pub fn on_remove(&mut self)
        ensures
            final(self)@ == (DialogView { is_removed: true, ..old(self)@ }),
    {
        self.is_removed = true;
    }
}

/// The dialog of an INVITE becomes a subscription of its own end; a subscription is
/// one already; and a publication cannot become one.
pub proof fn law_subscription_keeps_its_end(role: TransactionRole)
    ensures
        subscription_kind(DialogKind::Invite, TransactionRole::Server) == Some(
            DialogKind::ServerSubscription,
        ),
        subscription_kind(DialogKind::Invite, TransactionRole::Client) == Some(
            DialogKind::ClientSubscription,
        ),
        subscription_kind(DialogKind::ServerSubscription, role) == Some(
            DialogKind::ServerSubscription,
        ),
        subscription_kind(DialogKind::ClientSubscription, role) == Some(
            DialogKind::ClientSubscription,
        ),
        subscription_kind(DialogKind::ServerPublication, role) is None,
        subscription_kind(DialogKind::ClientPublication, role) is None,
{
}

/// The peer's Contact is read where it can be.
pub proof fn law_peers_contact_is_read(d: DialogView)
    ensures
        d.remote_contact matches Some(FieldView::Typed(c)) ==> d.remote_contact_uri() == Some(
            c.uri,
        ),
        !(d.remote_contact matches Some(FieldView::Typed(_))) ==> d.remote_contact_uri() is None,
{
}

}
