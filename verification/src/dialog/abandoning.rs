//! A call that its caller gives up before it is answered.
//!
//! A CANCEL may only be sent once a provisional response has come, and a 2xx may
//! cross it: then the call is there and has to be ended with a BYE.

use super::dialog::{DialogState, DialogStateView, DialogView, TerminatedReason};
use super::invite_dialog;
use super::invite_dialog::InviteDialog;
use crate::sip::basic::Method;
use crate::sip::message;
use crate::sip::message::{
    Request, RequestView, Response, ResponseView, SipMessage, SipMessageView,
};
use crate::sip::status::StatusCodeKind;
use crate::transaction::endpoint::{EndpointInner, EndpointView};
use crate::transport::sip_addr::{SipAddr, SipAddrView};
use vstd::prelude::*;

verus! {

/// How long the answers to a CANCEL may take, in milliseconds.
pub const SETTLE_TIME: u64 = 2000;

/// How far the end of the call has come.
#[derive(Clone, Copy, Debug, PartialEq, Eq, Structural)]
pub enum Abandoned {
    /// No response has come yet.
    First,
    /// The CANCEL followed the first provisional response.
    Deferred,
    /// The CANCEL is out, and the answers to it are due.
    Settling,
    /// The final response may still come.
    Last,
    /// A BYE is out, or nothing more is to be done.
    Over,
}

/// What is to be done next. Each wait is for a message of the INVITE's
/// transaction, which then goes to [`InviteDialog::abandoned_message`]; so does
/// the end of the transaction or of the time, as `None`.
pub enum AbandonStep {
    /// Stop the retransmissions of the INVITE, and wait for at most `within`
    /// milliseconds.
    WaitFirst { within: u64 },
    /// Send the CANCEL, and wait for at most `within` milliseconds from now.
    CancelAndWait { cancel: Option<Request>, within: u64 },
    /// Stop the retransmissions of the INVITE, send the CANCEL, and wait for at
    /// most `within` milliseconds. What becomes of the CANCEL goes to
    /// [`InviteDialog::abandoned_cancel`].
    Settle { cancel: Option<Request>, within: u64 },
    /// Wait until `within` milliseconds after the call was given up.
    WaitFinal { within: u64 },
    /// Go on waiting, for the rest of the time.
    Wait,
    /// Hang the established call up.
    Hangup,
    /// Send this BYE.
    Bye(Request),
    Done,
}

#[verifier::ext_equal]
pub enum AbandonStepView {
    WaitFirst { within: u64 },
    CancelAndWait { cancel: Option<RequestView>, within: u64 },
    Settle { cancel: Option<RequestView>, within: u64 },
    WaitFinal { within: u64 },
    Wait,
    Hangup,
    Bye(RequestView),
    Done,
}

impl View for AbandonStep {
    type V = AbandonStepView;

    open spec fn view(&self) -> AbandonStepView {
        match self {
            AbandonStep::WaitFirst { within } => AbandonStepView::WaitFirst { within: *within },
            AbandonStep::CancelAndWait { cancel, within } => AbandonStepView::CancelAndWait {
                cancel: cancel.deep_view(),
                within: *within,
            },
            AbandonStep::Settle { cancel, within } => AbandonStepView::Settle {
                cancel: cancel.deep_view(),
                within: *within,
            },
            AbandonStep::WaitFinal { within } => AbandonStepView::WaitFinal { within: *within },
            AbandonStep::Wait => AbandonStepView::Wait,
            AbandonStep::Hangup => AbandonStepView::Hangup,
            AbandonStep::Bye(r) => AbandonStepView::Bye(r@),
            AbandonStep::Done => AbandonStepView::Done,
        }
    }
}

/// A dialog, how far its end has come, and what to do next.
pub type Abandoning = (DialogView, Abandoned, AbandonStepView);

/// The caller has given the call up.
pub open spec fn given_up(d: DialogView) -> DialogView {
    d.enter(DialogStateView::Terminated(d.id, TerminatedReason::UacCancel))
}

pub open spec fn over(d: DialogView) -> Abandoning {
    (d, Abandoned::Over, AbandonStepView::Done)
}

/// The end of the time for the answers to the CANCEL. The final response may come
/// until 64*T1 after the call was given up.
pub open spec fn settled(d: DialogView, t1x64: u64) -> Abandoning {
    (given_up(d), Abandoned::Last, AbandonStepView::WaitFinal { within: t1x64 })
}

/// The call is given up. `has_transaction` tells whether its INVITE went out.
pub open spec fn abandoned(d: DialogView, t1x64: u64, has_transaction: bool) -> Abandoning {
    match d.state {
        DialogStateView::Calling(_) => if has_transaction {
            (given_up(d), Abandoned::First, AbandonStepView::WaitFirst { within: t1x64 })
        } else {
            over(given_up(d))
        },
        DialogStateView::Trying(_) | DialogStateView::Early(_, _) => if has_transaction {
            match invite_dialog::cancel(d) {
                Err(_) => settled(d, t1x64),
                Ok(cancel) => (
                    d,
                    Abandoned::Settling,
                    AbandonStepView::Settle { cancel, within: SETTLE_TIME },
                ),
            }
        } else {
            over(given_up(d))
        },
        DialogStateView::Confirmed(_, _) => (d, Abandoned::Over, AbandonStepView::Hangup),
        _ => over(d),
    }
}

/// The final response to the INVITE has come: a call that it made is ended.
pub open spec fn answered(
    d: DialogView,
    ep: EndpointView,
    addrs: Seq<SipAddrView>,
    branch: Seq<char>,
    resp: ResponseView,
) -> Abandoning {
    if resp.status_code.spec_kind() == StatusCodeKind::Successful {
        let (after, bye) = invite_dialog::bye_after_cancel(d, ep, addrs, branch, resp);
        match bye {
            Ok(r) => (after, Abandoned::Over, AbandonStepView::Bye(r)),
            Err(_) => over(after),
        }
    } else {
        over(d)
    }
}

/// A message of the INVITE's transaction has come, or none in time.
pub open spec fn abandoned_message(
    d: DialogView,
    ep: EndpointView,
    addrs: Seq<SipAddrView>,
    branch: Seq<char>,
    a: Abandoned,
    msg: Option<SipMessageView>,
) -> Abandoning {
    let t1x64 = ep.option.t1x64;
    match (a, msg) {
        (Abandoned::Over, _) => over(d),
        (Abandoned::Settling, None) => settled(d, t1x64),
        (_, None) => over(d),
        (_, Some(SipMessageView::Request(_))) => (d, a, AbandonStepView::Wait),
        (_, Some(SipMessageView::Response(resp))) => if resp.status_code.spec_kind()
            == StatusCodeKind::Provisional {
            if a == Abandoned::First {
                (
                    d,
                    Abandoned::Deferred,
                    AbandonStepView::CancelAndWait {
                        cancel: match invite_dialog::cancel_of(d.initial_request) {
                            Ok(r) => Some(r),
                            Err(_) => None,
                        },
                        within: t1x64,
                    },
                )
            } else {
                (d, a, AbandonStepView::Wait)
            }
        } else if a == Abandoned::Settling {
            answered(given_up(d), ep, addrs, branch, resp)
        } else {
            answered(d, ep, addrs, branch, resp)
        },
    }
}

/// The CANCEL is answered, or has failed. Its failure ends the time for the
/// answers.
pub open spec fn abandoned_cancel(
    d: DialogView,
    t1x64: u64,
    a: Abandoned,
    failed: bool,
) -> Abandoning {
    if a == Abandoned::Over {
        over(d)
    } else if a == Abandoned::Settling && failed {
        settled(d, t1x64)
    } else {
        (d, a, AbandonStepView::Wait)
    }
}

impl InviteDialog {
    fn give_up(&mut self)
        ensures
            final(self)@ == given_up(old(self)@),
    {
        let id = self.id();
        self.inner.transition(DialogState::Terminated(id, TerminatedReason::UacCancel));
    }

    /// Gives the call up. `has_transaction` tells whether its INVITE went out.
    pub fn abandon(&mut self, ep: &EndpointInner, has_transaction: bool) -> (r: (
        Abandoned,
        AbandonStep,
    ))
        ensures
            (final(self)@, r.0, r.1@) == abandoned(
                old(self)@,
                ep@.option.t1x64,
                has_transaction,
            ),
    {
        if matches!(&self.inner.state, DialogState::Calling(_)) {
            self.give_up();
            if has_transaction {
                return (
                    Abandoned::First,
                    AbandonStep::WaitFirst { within: ep.option.t1x64 },
                );
            }
            return (Abandoned::Over, AbandonStep::Done);
        }
        if matches!(&self.inner.state, DialogState::Trying(_) | DialogState::Early(_, _)) {
            if !has_transaction {
                self.give_up();
                return (Abandoned::Over, AbandonStep::Done);
            }
            return match self.cancel() {
                Err(_) => {
                    self.give_up();
                    (Abandoned::Last, AbandonStep::WaitFinal { within: ep.option.t1x64 })
                },
                Ok(cancel) => {
                    (Abandoned::Settling, AbandonStep::Settle { cancel, within: SETTLE_TIME })
                },
            };
        }
        if self.inner.is_confirmed() {
            return (Abandoned::Over, AbandonStep::Hangup);
        }
        (Abandoned::Over, AbandonStep::Done)
    }

    fn bye_if_2xx_after_cancel(
        &mut self,
        ep: &EndpointInner,
        addrs: &Vec<SipAddr>,
        branch: &String,
        resp: Response,
    ) -> (r: (Abandoned, AbandonStep))
        ensures
            (final(self)@, r.0, r.1@) == answered(
                old(self)@,
                ep@,
                addrs.deep_view(),
                branch@,
                resp@,
            ),
    {
        if resp.status_code.kind() != StatusCodeKind::Successful {
            return (Abandoned::Over, AbandonStep::Done);
        }
        match self.bye_2xx_after_cancel(ep, addrs, branch, &resp) {
            Ok(r) => (Abandoned::Over, AbandonStep::Bye(r)),
            Err(_) => (Abandoned::Over, AbandonStep::Done),
        }
    }

    /// Takes a message of the INVITE's transaction, or that none has come in
    /// time.
    pub fn abandoned_message(
        &mut self,
        ep: &EndpointInner,
        addrs: &Vec<SipAddr>,
        branch: &String,
        a: Abandoned,
        msg: Option<SipMessage>,
    ) -> (r: (Abandoned, AbandonStep))
        ensures
            (final(self)@, r.0, r.1@) == abandoned_message(
                old(self)@,
                ep@,
                addrs.deep_view(),
                branch@,
                a,
                msg.deep_view(),
            ),
    {
        if a == Abandoned::Over {
            return (Abandoned::Over, AbandonStep::Done);
        }
        match msg {
            None => {
                if a == Abandoned::Settling {
                    self.give_up();
                    return (
                        Abandoned::Last,
                        AbandonStep::WaitFinal { within: ep.option.t1x64 },
                    );
                }
                (Abandoned::Over, AbandonStep::Done)
            },
            Some(SipMessage::Request(_)) => (a, AbandonStep::Wait),
            Some(SipMessage::Response(resp)) => {
                if resp.status_code.kind() == StatusCodeKind::Provisional {
                    if a == Abandoned::First {
                        let cancel = match self.send_cancel() {
                            Ok(r) => Some(r),
                            Err(_) => None,
                        };
                        return (
                            Abandoned::Deferred,
                            AbandonStep::CancelAndWait { cancel, within: ep.option.t1x64 },
                        );
                    }
                    return (a, AbandonStep::Wait);
                }
                if a == Abandoned::Settling {
                    self.give_up();
                }
                self.bye_if_2xx_after_cancel(ep, addrs, branch, resp)
            },
        }
    }

    /// Takes what has become of the CANCEL.
    pub fn abandoned_cancel(&mut self, ep: &EndpointInner, a: Abandoned, failed: bool) -> (r: (
        Abandoned,
        AbandonStep,
    ))
        ensures
            (final(self)@, r.0, r.1@) == abandoned_cancel(
                old(self)@,
                ep@.option.t1x64,
                a,
                failed,
            ),
    {
        if a == Abandoned::Over {
            return (Abandoned::Over, AbandonStep::Done);
        }
        if a == Abandoned::Settling && failed {
            self.give_up();
            return (Abandoned::Last, AbandonStep::WaitFinal { within: ep.option.t1x64 });
        }
        (a, AbandonStep::Wait)
    }
}

/// A call that is given up before any response is over at once, and nothing is
/// sent for it before the first provisional response.
pub proof fn law_nothing_is_sent_before_a_provisional(
    d: DialogView,
    t1x64: u64,
    has_transaction: bool,
)
    requires
        d.state is Calling,
    ensures
        ({
            let (after, a, step) = abandoned(d, t1x64, has_transaction);
            &&& after.state == DialogStateView::Terminated(d.id, TerminatedReason::UacCancel)
            &&& step is WaitFirst || step is Done
        }),
{
}

/// How long a step waits, if it starts a wait.
pub open spec fn wait_of(step: AbandonStepView) -> Option<u64> {
    match step {
        AbandonStepView::WaitFirst { within } => Some(within),
        AbandonStepView::CancelAndWait { within, .. } => Some(within),
        AbandonStepView::Settle { within, .. } => Some(within),
        AbandonStepView::WaitFinal { within } => Some(within),
        _ => None,
    }
}

/// The end of a call that was given up takes a bounded time: the answers to a
/// CANCEL are waited for until the time to settle is over, and everything else
/// until 64*T1.
pub proof fn law_abandoned_call_waits_are_bounded(
    d: DialogView,
    ep: EndpointView,
    addrs: Seq<SipAddrView>,
    branch: Seq<char>,
    has_transaction: bool,
    a: Abandoned,
    msg: Option<SipMessageView>,
    failed: bool,
)
    ensures
        ({
            let step = abandoned(d, ep.option.t1x64, has_transaction).2;
            wait_of(step) matches Some(t) ==> t == if step is Settle {
                SETTLE_TIME
            } else {
                ep.option.t1x64
            }
        }),
        wait_of(abandoned_message(d, ep, addrs, branch, a, msg).2) matches Some(t) ==> t
            == ep.option.t1x64,
        wait_of(abandoned_cancel(d, ep.option.t1x64, a, failed).2) matches Some(t) ==> t
            == ep.option.t1x64,
        a != Abandoned::Over && a != Abandoned::Settling ==> abandoned_message(
            d,
            ep,
            addrs,
            branch,
            a,
            None,
        ) == over(d),
{
}

/// A provisional response to a call that was given up before any response brings
/// the CANCEL.
pub proof fn law_first_provisional_brings_the_cancel(
    d: DialogView,
    ep: EndpointView,
    addrs: Seq<SipAddrView>,
    branch: Seq<char>,
    resp: ResponseView,
)
    requires
        resp.status_code.spec_kind() == StatusCodeKind::Provisional,
        message::cseq_of(d.initial_request.headers) is Ok,
    ensures
        abandoned_message(
            d,
            ep,
            addrs,
            branch,
            Abandoned::First,
            Some(SipMessageView::Response(resp)),
        ).2 matches AbandonStepView::CancelAndWait { cancel: Some(c), .. } && c.method
            == Method::Cancel,
{
}

/// A call that is given up ends once: the dialog is never established, and is
/// over with the caller's CANCEL as the reason if it was not over before.
pub proof fn law_abandoned_call_is_never_established(
    d: DialogView,
    ep: EndpointView,
    addrs: Seq<SipAddrView>,
    branch: Seq<char>,
    a: Abandoned,
    msg: Option<SipMessageView>,
    failed: bool,
)
    ensures
        ({
            let after = abandoned_message(d, ep, addrs, branch, a, msg).0;
            after.state == d.state || after.state == DialogStateView::Terminated(
                d.id,
                TerminatedReason::UacCancel,
            )
        }),
        ({
            let after = abandoned_cancel(d, ep.option.t1x64, a, failed).0;
            after.state == d.state || after.state == DialogStateView::Terminated(
                d.id,
                TerminatedReason::UacCancel,
            )
        }),
{
    reveal(super::requests::next_request);
    reveal(super::requests::request_in);
}

/// A 2xx to a call that was given up is ended with a BYE, whenever it comes; any
/// other final response ends the matter without one.
pub proof fn law_final_response_ends_the_call(
    d: DialogView,
    ep: EndpointView,
    addrs: Seq<SipAddrView>,
    branch: Seq<char>,
    a: Abandoned,
    resp: ResponseView,
)
    requires
        a != Abandoned::Over,
        resp.status_code.spec_kind() != StatusCodeKind::Provisional,
        addrs.len() > 0,
    ensures
        ({
            let (_, after, step) = abandoned_message(
                d,
                ep,
                addrs,
                branch,
                a,
                Some(SipMessageView::Response(resp)),
            );
            &&& after == Abandoned::Over
            &&& resp.status_code.spec_kind() != StatusCodeKind::Successful ==> step
                == AbandonStepView::Done
            &&& (resp.status_code.spec_kind() == StatusCodeKind::Successful && message::to_tag_of(
                resp.headers,
            ) is Ok && message::contact_of(resp.headers) matches Ok(Some(_))) ==> (
            step matches AbandonStepView::Bye(bye) && bye.method == Method::Bye)
        }),
{
    reveal(super::requests::next_request);
    reveal(super::requests::request_in);
}

}
