//! A dialog as a value that can be stored, and a dialog made from it.

use super::dialog;
use super::dialog::{
    DialogInner, DialogSnapshotState, DialogState, DialogStateView, DialogView, SessionIdState,
    SessionIdStateView,
};
use super::id::{DialogId, DialogIdView};
use super::requests;
use crate::lists;
use crate::sip::basic::{Method, Version};
use crate::sip::header;
use crate::sip::header::{CSeq, Field, FieldView, Header, HeaderView};
use crate::sip::message;
use crate::sip::message::{Request, RequestView, Response};
use crate::sip::session_id;
use crate::sip::session_id::SessionIdView;
use crate::sip::uri;
use crate::sip::uri::{NameAddr, NameAddrView, Uri, UriView};
use crate::transaction::key::TransactionRole;
use vstd::prelude::*;
use vstd::string::*;

verus! {

/// What is kept of a dialog.
#[derive(Debug)]
pub struct DialogSnapshot {
    pub state: DialogSnapshotState,
    pub role: TransactionRole,
    pub id: DialogId,
    pub from: NameAddr,
    pub to: NameAddr,
    pub local_cseq: u32,
    pub remote_cseq: u32,
    pub local_contact: Option<Uri>,
    pub remote_uri: Uri,
    pub remote_contact: Option<Field<NameAddr>>,
    pub route_set: Vec<Field<NameAddr>>,
    pub supports_100rel: bool,
    pub session_id: Option<SessionIdState>,
}

#[verifier::ext_equal]
pub struct DialogSnapshotView {
    pub state: DialogSnapshotState,
    pub role: TransactionRole,
    pub id: DialogIdView,
    pub from: NameAddrView,
    pub to: NameAddrView,
    pub local_cseq: u32,
    pub remote_cseq: u32,
    pub local_contact: Option<UriView>,
    pub remote_uri: UriView,
    pub remote_contact: Option<FieldView<NameAddrView>>,
    pub route_set: Seq<FieldView<NameAddrView>>,
    pub supports_100rel: bool,
    pub session_id: Option<SessionIdStateView>,
}

impl View for DialogSnapshot {
    type V = DialogSnapshotView;

    open spec fn view(&self) -> DialogSnapshotView {
        DialogSnapshotView {
            state: self.state,
            role: self.role,
            id: self.id@,
            from: self.from@,
            to: self.to@,
            local_cseq: self.local_cseq,
            remote_cseq: self.remote_cseq,
            local_contact: self.local_contact.deep_view(),
            remote_uri: self.remote_uri@,
            remote_contact: self.remote_contact.deep_view(),
            route_set: self.route_set.deep_view(),
            supports_100rel: self.supports_100rel,
            session_id: self.session_id.deep_view(),
        }
    }
}

impl Clone for DialogSnapshot {
    fn clone(&self) -> (r: Self)
        ensures
            r@ == self@,
    {
        DialogSnapshot {
            state: self.state,
            role: self.role,
            id: self.id.clone(),
            from: self.from.clone(),
            to: self.to.clone(),
            local_cseq: self.local_cseq,
            remote_cseq: self.remote_cseq,
            local_contact: self.local_contact.clone(),
            remote_uri: self.remote_uri.clone(),
            remote_contact: self.remote_contact.clone(),
            route_set: copy_routes(&self.route_set),
            supports_100rel: self.supports_100rel,
            session_id: self.session_id.clone(),
        }
    }
}

fn copy_routes(routes: &Vec<Field<NameAddr>>) -> (r: Vec<Field<NameAddr>>)
    ensures
        r.deep_view() == routes.deep_view(),
{
    let ghost all = routes.deep_view();
    let mut r: Vec<Field<NameAddr>> = Vec::new();
    let mut i: usize = 0;
    while i < routes.len()
        invariant
            i <= routes.len(),
            all == routes.deep_view(),
            r.deep_view() == all.take(i as int),
        decreases routes.len() - i,
    {
        let ghost before = r.deep_view();
        let next = routes[i].clone();
        r.push(next);
        assert(r.deep_view() == before.push(next.deep_view()));
        assert(all.take(i + 1) == all.take(i as int).push(all[i as int]));
        i = i + 1;
    }
    assert(all.take(i as int) == all);
    r
}

/// What a snapshot keeps of a state. A request that passes or is being answered
/// belongs to an established dialog.
pub open spec fn snapshot_state(state: DialogStateView) -> DialogSnapshotState {
    match state {
        DialogStateView::Calling(_) => DialogSnapshotState::Calling,
        DialogStateView::Trying(_) => DialogSnapshotState::Trying,
        DialogStateView::Early(_, _) => DialogSnapshotState::Early,
        DialogStateView::WaitAck(_, _) => DialogSnapshotState::WaitAck,
        DialogStateView::Terminated(_, _) => DialogSnapshotState::Terminated,
        _ => DialogSnapshotState::Confirmed,
    }
}

pub open spec fn snapshot_of(d: DialogView) -> DialogSnapshotView {
    DialogSnapshotView {
        state: snapshot_state(d.state),
        role: d.role,
        id: d.id,
        from: d.from,
        to: d.to,
        local_cseq: d.local_seq,
        remote_cseq: d.remote_seq,
        local_contact: d.local_contact,
        remote_uri: d.remote_uri,
        remote_contact: d.remote_contact,
        route_set: d.route_set,
        supports_100rel: d.supports_100rel,
        session_id: d.session_id,
    }
}

/// The Session-ID of the request that opened the dialog: its sender's identifier
/// comes first.
pub open spec fn opening_session(role: TransactionRole, sid: Option<SessionIdStateView>) -> Option<
    HeaderView,
> {
    match (sid, role) {
        (None, _) => None,
        (Some(s), TransactionRole::Client) => dialog::session_header(s.local, s.remote),
        (Some(s), TransactionRole::Server) => dialog::session_header(
            match s.remote {
                Some(r) => r,
                None => session_id::nil_uuid(),
            },
            Some(s.local),
        ),
    }
}

/// The headers that stand in for those of the request which opened a dialog.
pub open spec fn opening_headers(
    s: DialogSnapshotView,
    from: NameAddrView,
    to: NameAddrView,
    user_agent: Seq<char>,
) -> Seq<HeaderView> {
    let (first, second) = match s.role {
        TransactionRole::Client => (from, to),
        TransactionRole::Server => (to, from),
    };
    seq![
        HeaderView::CallId(s.id.call_id),
        HeaderView::From(FieldView::Typed(first)),
        HeaderView::To(FieldView::Typed(second)),
        HeaderView::CSeq(FieldView::Typed(CSeq { seq: s.local_cseq, method: Method::Invite })),
        HeaderView::UserAgent(user_agent),
    ] + requests::optional(
        match s.local_contact {
            Some(u) => Some(HeaderView::Contact(FieldView::Typed(uri::plain_addr(u)))),
            None => None,
        },
    ) + requests::optional(opening_session(s.role, s.session_id)) + seq![
        HeaderView::ContentLength(0),
    ]
}

/// The From of the dialog, with the tag that the dialog's name gives it.
pub open spec fn restored_from(s: DialogSnapshotView) -> NameAddrView {
    let tag = dialog::from_tag_of_dialog(s.id, s.role);
    if tag.len() > 0 && s.from.tag() is None {
        s.from.with_tag(tag)
    } else {
        s.from
    }
}

/// The To of the dialog, with the tag that the dialog's name gives it.
pub open spec fn restored_to(s: DialogSnapshotView) -> NameAddrView {
    dialog::tagged(s.to, dialog::to_tag_of_dialog(s.id, s.role))
}

/// The dialog that a snapshot is of. Only an established one can be restored.
pub open spec fn restored(s: DialogSnapshotView, user_agent: Seq<char>, tu_channel: u64) -> Option<
    DialogView,
> {
    if s.state != DialogSnapshotState::Confirmed {
        None
    } else {
        Some(
            DialogView {
                role: s.role,
                id: s.id,
                state: DialogStateView::Confirmed(s.id, message::default_response()),
                local_seq: s.local_cseq,
                local_contact: s.local_contact,
                remote_contact: s.remote_contact,
                remote_seq: s.remote_cseq,
                remote_uri: s.remote_uri,
                from: restored_from(s),
                to: restored_to(s),
                credential: None,
                route_set: s.route_set,
                session_id: s.session_id,
                initial_request: RequestView {
                    method: Method::Invite,
                    uri: s.remote_uri,
                    version: Version::V2,
                    headers: opening_headers(s, restored_from(s), restored_to(s), user_agent),
                    body: Seq::empty(),
                },
                supports_100rel: s.supports_100rel,
                remote_reliable: None,
                server_connection: None,
                dialback_target: None,
                remote_ack: None,
                tu_channel,
                is_removed: false,
                notifications: Seq::empty(),
            },
        )
    }
}

fn push_opening_addresses(
    headers: &mut Vec<Header>,
    snapshot: &DialogSnapshot,
    from: &NameAddr,
    to: &NameAddr,
    user_agent: &String,
)
    requires
        old(headers)@.len() == 0,
    ensures
        final(headers).deep_view() + requests::optional(
            match snapshot@.local_contact {
                Some(u) => Some(HeaderView::Contact(FieldView::Typed(uri::plain_addr(u)))),
                None => None,
            },
        ) + requests::optional(opening_session(snapshot@.role, snapshot@.session_id)) + seq![
            HeaderView::ContentLength(0),
        ] == opening_headers(snapshot@, from@, to@, user_agent@),
{
    header::push(headers, Header::CallId(snapshot.id.call_id.clone()));
    match snapshot.role {
        TransactionRole::Client => {
            header::push(headers, Header::From(Field::Typed(from.clone())));
            header::push(headers, Header::To(Field::Typed(to.clone())));
        },
        TransactionRole::Server => {
            header::push(headers, Header::From(Field::Typed(to.clone())));
            header::push(headers, Header::To(Field::Typed(from.clone())));
        },
    }
    let cseq = CSeq { seq: snapshot.local_cseq, method: Method::Invite };
    header::push(headers, Header::CSeq(Field::Typed(cseq)));
    header::push(headers, Header::UserAgent(user_agent.clone()));
    let ghost (first, second) = match snapshot.role {
        TransactionRole::Client => (from@, to@),
        TransactionRole::Server => (to@, from@),
    };
    assert(headers.deep_view() == seq![
        HeaderView::CallId(snapshot.id.call_id@),
        HeaderView::From(FieldView::Typed(first)),
        HeaderView::To(FieldView::Typed(second)),
        HeaderView::CSeq(FieldView::Typed(cseq)),
        HeaderView::UserAgent(user_agent@),
    ]);
}

impl DialogInner {
    /// What to keep of the dialog.
    pub fn snapshot(&self) -> (s: DialogSnapshot)
        ensures
            s@ == snapshot_of(self@),
    {
        let state = match &self.state {
            DialogState::Calling(_) => DialogSnapshotState::Calling,
            DialogState::Trying(_) => DialogSnapshotState::Trying,
            DialogState::Early(_, _) => DialogSnapshotState::Early,
            DialogState::WaitAck(_, _) => DialogSnapshotState::WaitAck,
            DialogState::Terminated(_, _) => DialogSnapshotState::Terminated,
            _ => DialogSnapshotState::Confirmed,
        };
        DialogSnapshot {
            state,
            role: self.role,
            id: self.id.clone(),
            from: self.from.clone(),
            to: self.to.clone(),
            local_cseq: self.local_seq,
            remote_cseq: self.remote_seq,
            local_contact: self.local_contact.clone(),
            remote_uri: self.remote_uri.clone(),
            remote_contact: self.remote_contact.clone(),
            route_set: copy_routes(&self.route_set),
            supports_100rel: self.supports_100rel,
            session_id: self.session_id.clone(),
        }
    }

    fn build_restored_initial_request(
        snapshot: &DialogSnapshot,
        from: &NameAddr,
        to: &NameAddr,
        user_agent: &String,
    ) -> (r: Request)
        ensures
            r@ == (RequestView {
                method: Method::Invite,
                uri: snapshot@.remote_uri,
                version: Version::V2,
                headers: opening_headers(snapshot@, from@, to@, user_agent@),
                body: Seq::empty(),
            }),
    {
        let mut headers: Vec<Header> = Vec::new();
        push_opening_addresses(&mut headers, snapshot, from, to, user_agent);
        let contact = match &snapshot.local_contact {
            Some(u) => Some(Header::Contact(Field::Typed(NameAddr::of_uri(u.clone())))),
            None => None,
        };
        requests::push_optional(&mut headers, contact);
        let session = match &snapshot.session_id {
            None => None,
            Some(sid) => match snapshot.role {
                TransactionRole::Client => dialog::build_session_id_header(
                    sid.local.as_str(),
                    sid.remote.as_ref(),
                ),
                TransactionRole::Server => {
                    let first = match &sid.remote {
                        Some(r) => r.clone(),
                        None => session_id::nil(),
                    };
                    dialog::build_session_id_header(first.as_str(), Some(&sid.local))
                },
            },
        };
        requests::push_optional(&mut headers, session);
        let ghost before = headers.deep_view();
        header::push(&mut headers, Header::ContentLength(0));
        assert(headers.deep_view() == before + seq![HeaderView::ContentLength(0)]);
        Request {
            method: Method::Invite,
            uri: snapshot.remote_uri.clone(),
            version: Version::V2,
            headers,
            body: Vec::new(),
        }
    }

    /// Makes a dialog from a snapshot, unless it is not of an established one.
    pub fn try_restore_from_snapshot(
        snapshot: DialogSnapshot,
        user_agent: &String,
        tu_channel: u64,
    ) -> (r: Option<DialogInner>)
        ensures
            r.deep_view() == restored(snapshot@, user_agent@, tu_channel),
    {
        if snapshot.state != DialogSnapshotState::Confirmed {
            return None;
        }
        let (to_tag, from_tag) = match snapshot.role {
            TransactionRole::Client => (&snapshot.id.remote_tag, &snapshot.id.local_tag),
            TransactionRole::Server => (&snapshot.id.local_tag, &snapshot.id.remote_tag),
        };
        let to = dialog::add_tag(snapshot.to.clone(), to_tag);
        let from = if !from_tag.as_str().is_empty() && snapshot.from.tag().is_none() {
            snapshot.from.clone().with_tag(from_tag.clone())
        } else {
            snapshot.from.clone()
        };
        let initial_request = Self::build_restored_initial_request(
            &snapshot,
            &from,
            &to,
            user_agent,
        );
        let notifications: Vec<DialogState> = Vec::new();
        assert(notifications.deep_view() == Seq::<DialogStateView>::empty());
        Some(
            DialogInner {
                role: snapshot.role,
                state: DialogState::Confirmed(snapshot.id.clone(), Response::default()),
                id: snapshot.id,
                local_seq: snapshot.local_cseq,
                local_contact: snapshot.local_contact,
                remote_contact: snapshot.remote_contact,
                remote_seq: snapshot.remote_cseq,
                remote_uri: snapshot.remote_uri,
                from,
                to,
                credential: None,
                route_set: snapshot.route_set,
                session_id: snapshot.session_id,
                initial_request,
                supports_100rel: snapshot.supports_100rel,
                remote_reliable: None,
                server_connection: None,
                dialback_target: None,
                remote_ack: None,
                tu_channel,
                is_removed: false,
                notifications,
            },
        )
    }
}

/// A dialog is restored from its snapshot exactly if it is established. The
/// restored dialog has the same name, addresses, numbers, routes and
/// identifiers, so that its snapshot is the one that it came from.
pub proof fn law_snapshot_survives_restore(d: DialogView, user_agent: Seq<char>, tu_channel: u64)
    requires
        d.from.tag() is Some || dialog::from_tag_of_dialog(d.id, d.role).len() == 0,
        d.to.tag() is Some || dialog::to_tag_of_dialog(d.id, d.role).len() == 0,
    ensures
        restored(snapshot_of(d), user_agent, tu_channel) is Some <==> snapshot_state(d.state)
            == DialogSnapshotState::Confirmed,
        restored(snapshot_of(d), user_agent, tu_channel) matches Some(r) ==> r.state is Confirmed
            && snapshot_of(r) == snapshot_of(d),
{
}

/// A snapshot holds what is known of the dialog as it is, field by field.
pub proof fn law_snapshot_holds_the_dialog(d: DialogView)
    ensures
        ({
            let s = snapshot_of(d);
            &&& s.role == d.role && s.id == d.id
            &&& s.from == d.from && s.to == d.to
            &&& s.local_cseq == d.local_seq && s.remote_cseq == d.remote_seq
            &&& s.local_contact == d.local_contact
            &&& s.remote_uri == d.remote_uri && s.remote_contact == d.remote_contact
            &&& s.route_set == d.route_set
            &&& s.supports_100rel == d.supports_100rel && s.session_id == d.session_id
            &&& d.state is Calling <==> s.state == DialogSnapshotState::Calling
            &&& d.state is Trying <==> s.state == DialogSnapshotState::Trying
            &&& d.state is Early <==> s.state == DialogSnapshotState::Early
            &&& d.state is WaitAck <==> s.state == DialogSnapshotState::WaitAck
            &&& d.state is Terminated <==> s.state == DialogSnapshotState::Terminated
        }),
{
}

/// The dialog that is restored from a snapshot of an established one is that
/// dialog: the same name, ends, numbers, target, route set and identifiers. No
/// other dialog can be restored. What belongs to the process that took the
/// snapshot, its connections and credentials, is gone.
pub proof fn law_restored_dialog_is_the_dialog(
    d: DialogView,
    user_agent: Seq<char>,
    tu_channel: u64,
)
    ensures
        restored(snapshot_of(d), user_agent, tu_channel) is None <==> (d.state is Calling
            || d.state is Trying || d.state is Early || d.state is WaitAck
            || d.state is Terminated),
        restored(snapshot_of(d), user_agent, tu_channel) matches Some(r) ==> {
            &&& r.role == d.role && r.id == d.id
            &&& r.state == DialogStateView::Confirmed(d.id, message::default_response())
            &&& r.local_seq == d.local_seq && r.remote_seq == d.remote_seq
            &&& r.local_contact == d.local_contact
            &&& r.remote_uri == d.remote_uri && r.remote_contact == d.remote_contact
            &&& r.route_set == d.route_set
            &&& r.supports_100rel == d.supports_100rel && r.session_id == d.session_id
            &&& r.from.uri == d.from.uri && r.from.display_name == d.from.display_name
            &&& r.to.uri == d.to.uri && r.to.display_name == d.to.display_name
            &&& d.from.tag() is Some ==> r.from == d.from
            &&& d.to.tag() is Some ==> r.to == d.to
            &&& r.credential is None && r.server_connection is None
            &&& r.dialback_target is None && r.remote_reliable is None && r.remote_ack is None
            &&& !r.is_removed && r.notifications.len() == 0
            &&& r.tu_channel == tu_channel
        },
{
}

/// The request that stands for the one which opened a restored dialog goes to the
/// peer, names the dialog, and has this end for its From.
pub proof fn law_restored_dialog_has_an_opening_request(
    d: DialogView,
    user_agent: Seq<char>,
    tu_channel: u64,
)
    requires
        d.from.tag() is Some,
        d.to.tag() is Some,
    ensures
        restored(snapshot_of(d), user_agent, tu_channel) matches Some(r) ==> {
            let opening = r.initial_request;
            let (near, far) = if d.role == TransactionRole::Client {
                (d.from, d.to)
            } else {
                (d.to, d.from)
            };
            &&& opening.method == Method::Invite && opening.uri == d.remote_uri
            &&& opening.body.len() == 0
            &&& header::first_call_id(opening.headers) == Some(d.id.call_id)
            &&& header::first_from(opening.headers) == Some(FieldView::Typed(near))
            &&& header::first_to(opening.headers) == Some(FieldView::Typed(far))
            &&& header::first_cseq(opening.headers) == Some(
                FieldView::Typed(CSeq { seq: d.local_seq, method: Method::Invite }),
            )
            &&& d.local_contact matches Some(u) ==> (header::first_contact(opening.headers)
                matches Some(FieldView::Typed(c)) && c.uri == u)
        },
{
    if let Some(r) = restored(snapshot_of(d), user_agent, tu_channel) {
        let h = r.initial_request.headers;
        assert(h[0] is CallId && h[1] is From && h[2] is To && h[3] is CSeq && h[4] is UserAgent);
        lists::law_first_of_is_the_first(h, 0, |x: HeaderView| header::as_call_id(x));
        lists::law_first_of_is_the_first(h, 1, |x: HeaderView| header::as_from(x));
        lists::law_first_of_is_the_first(h, 2, |x: HeaderView| header::as_to(x));
        lists::law_first_of_is_the_first(h, 3, |x: HeaderView| header::as_cseq(x));
        if d.local_contact is Some {
            assert(h[5] is Contact);
            lists::law_first_of_is_the_first(h, 5, |x: HeaderView| header::as_contact(x));
        }
    }
}

/// The request that stands for the one which opened a restored dialog names its
/// sender first and its receiver second: a client sent it, and a server received
/// it. An identifier that is not known is nil.
pub proof fn law_restored_dialog_names_its_session(
    d: DialogView,
    user_agent: Seq<char>,
    tu_channel: u64,
    sid: SessionIdStateView,
)
    requires
        d.session_id == Some(sid),
        session_id::is_uuid(sid.local),
        sid.remote matches Some(x) ==> session_id::is_uuid(x),
    ensures
        restored(snapshot_of(d), user_agent, tu_channel) matches Some(r) ==> {
            let far = match sid.remote {
                Some(x) => x,
                None => "00000000000000000000000000000000"@,
            };
            header::first_session_id(r.initial_request.headers) == Some(
                if d.role == TransactionRole::Client {
                    SessionIdView { local: sid.local, remote: Some(far) }
                } else {
                    SessionIdView { local: far, remote: Some(sid.local) }
                },
            )
        },
{
    reveal_strlit("00000000000000000000000000000000");
    if let Some(r) = restored(snapshot_of(d), user_agent, tu_channel) {
        let h = r.initial_request.headers;
        let i: int = if d.local_contact is Some {
            6
        } else {
            5
        };
        assert(h[0] is CallId && h[1] is From && h[2] is To && h[3] is CSeq && h[4] is UserAgent);
        if d.local_contact is Some {
            assert(h[5] is Contact);
        }
        assert(h[i] is SessionId);
        lists::law_first_of_is_the_first(h, i, |x: HeaderView| header::as_session_id(x));
    }
}

}
