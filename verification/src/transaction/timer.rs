//! The timers of transactions.

use super::key::TransactionKey;
use std::collections::HashMap;
use vstd::prelude::*;

verus! {

broadcast use vstd::std_specs::hash::group_hash_axioms;

/// A timer of a transaction. `TimerA` and `TimerG` carry their last interval in
/// milliseconds.
#[derive(Debug)]
pub enum TransactionTimer {
    TimerA(TransactionKey, u64),
    TimerB(TransactionKey),
    TimerC(TransactionKey),
    TimerD(TransactionKey),
    TimerK(TransactionKey),
    TimerG(TransactionKey, u64),
    TimerCleanup(TransactionKey),
}

#[verifier::ext_equal]
pub enum TransactionTimerView {
    TimerA(Seq<char>, u64),
    TimerB(Seq<char>),
    TimerC(Seq<char>),
    TimerD(Seq<char>),
    TimerK(Seq<char>),
    TimerG(Seq<char>, u64),
    TimerCleanup(Seq<char>),
}

impl View for TransactionTimer {
    type V = TransactionTimerView;

    open spec fn view(&self) -> TransactionTimerView {
        match self {
            TransactionTimer::TimerA(k, d) => TransactionTimerView::TimerA(k@, *d),
            TransactionTimer::TimerB(k) => TransactionTimerView::TimerB(k@),
            TransactionTimer::TimerC(k) => TransactionTimerView::TimerC(k@),
            TransactionTimer::TimerD(k) => TransactionTimerView::TimerD(k@),
            TransactionTimer::TimerK(k) => TransactionTimerView::TimerK(k@),
            TransactionTimer::TimerG(k, d) => TransactionTimerView::TimerG(k@, *d),
            TransactionTimer::TimerCleanup(k) => TransactionTimerView::TimerCleanup(k@),
        }
    }
}

impl DeepView for TransactionTimer {
    type V = TransactionTimerView;

    open spec fn deep_view(&self) -> TransactionTimerView {
        self@
    }
}

impl TransactionTimerView {
    /// The transaction that the timer belongs to.
    pub open spec fn key(self) -> Seq<char> {
        match self {
            TransactionTimerView::TimerA(k, _) | TransactionTimerView::TimerG(k, _) => k,
            TransactionTimerView::TimerB(k) | TransactionTimerView::TimerC(k)
            | TransactionTimerView::TimerD(k) | TransactionTimerView::TimerK(k)
            | TransactionTimerView::TimerCleanup(k) => k,
        }
    }
}

impl TransactionTimer {
    pub fn key(&self) -> (k: &TransactionKey)
        ensures
            k@ == self@.key(),
    {
        match self {
            TransactionTimer::TimerA(k, _) | TransactionTimer::TimerG(k, _) => k,
            TransactionTimer::TimerB(k) | TransactionTimer::TimerC(k) | TransactionTimer::TimerD(k)
            | TransactionTimer::TimerK(k) | TransactionTimer::TimerCleanup(k) => k,
        }
    }
}

/// A running timer, with the milliseconds after which it fires.
#[derive(Debug)]
pub struct TimerEntry {
    pub delay: u64,
    pub timer: TransactionTimer,
}

#[verifier::ext_equal]
pub struct TimerEntryView {
    pub delay: u64,
    pub timer: TransactionTimerView,
}

impl View for TimerEntry {
    type V = TimerEntryView;

    open spec fn view(&self) -> TimerEntryView {
        TimerEntryView { delay: self.delay, timer: self.timer@ }
    }
}

/// The running timers. Who drives the clock starts the clock for each new number
/// and hands the number back when the delay is over.
pub struct Timer {
    pub next_id: u64,
    pub pending: HashMap<u64, TimerEntry>,
}

#[verifier::ext_equal]
pub struct TimerView {
    pub next_id: u64,
    pub pending: Map<u64, TimerEntryView>,
}

impl View for Timer {
    type V = TimerView;

    open spec fn view(&self) -> TimerView {
        TimerView {
            next_id: self.next_id,
            pending: self.pending@.map_values(|e: TimerEntry| e@),
        }
    }
}

/// The number after `n`, starting again at zero behind the last.
pub open spec fn next_number(n: u64) -> u64 {
    if n == u64::MAX {
        0
    } else {
        (n + 1) as u64
    }
}

impl TimerView {
    /// One more timer runs, under the next number.
    pub open spec fn start(self, delay: u64, timer: TransactionTimerView) -> TimerView {
        TimerView {
            next_id: next_number(self.next_id),
            pending: self.pending.insert(self.next_id, TimerEntryView { delay, timer }),
        }
    }

    /// The timer with this number, if there is one, runs no longer.
    pub open spec fn cancel(self, id: Option<u64>) -> TimerView {
        match id {
            Some(id) => TimerView { pending: self.pending.remove(id), ..self },
            None => self,
        }
    }
}

impl Timer {
    pub fn new() -> (r: Timer)
        ensures
            r@ == (TimerView { next_id: 1, pending: Map::empty() }),
    {
        Timer { next_id: 1, pending: HashMap::new() }
    }

    /// Starts a timer and returns its number.
    pub fn timeout(&mut self, delay: u64, timer: TransactionTimer) -> (id: u64)
        ensures
            id == old(self)@.next_id,
            final(self)@ == old(self)@.start(delay, timer@),
    {
        let id: u64 = self.next_id;
        self.pending.insert(id, TimerEntry { delay, timer });
        self.next_id = if id == u64::MAX {
            0
        } else {
            id + 1
        };
        id
    }

    /// Stops the timer with this number, if it runs.
    pub fn cancel(&mut self, id: Option<u64>)
        ensures
            final(self)@ == old(self)@.cancel(id),
    {
        if let Some(id) = id {
            self.pending.remove(&id);
        }
    }

    /// Takes out the timer whose delay is over. A timer that was stopped gives
    /// `None`.
    pub fn fire(&mut self, id: u64) -> (r: Option<TransactionTimer>)
        ensures
            final(self)@ == old(self)@.cancel(Some(id)),
            r.deep_view() == (if old(self)@.pending.contains_key(id) {
                Some(old(self)@.pending[id].timer)
            } else {
                None
            }),
    {
        match self.pending.remove(&id) {
            Some(entry) => Some(entry.timer),
            None => None,
        }
    }

    /// The delay of a running timer.
    pub fn delay_of(&self, id: u64) -> (r: Option<u64>)
        ensures
            r == (if self@.pending.contains_key(id) {
                Some(self@.pending[id].delay)
            } else {
                None
            }),
    {
        match self.pending.get(&id) {
            Some(entry) => Some(entry.delay),
            None => None,
        }
    }
}

}
