//! The one-shot completion bridge.
//!
//! A one-shot call hands the foreign side a context token and expects the
//! fixed async trampoline to be invoked at most once with the result.  The
//! session state machine here is what the trampoline and the consumer both
//! drive: the first callback reclaims the token and resolves the completion
//! with exactly that value; any further callback is a protocol violation
//! that is counted, never delivered; a consumer that abandons the completion
//! before resolution turns the delivery into a no-op without disturbing the
//! token discipline.
//!
//! The value itself is a 64-bit pattern and is forwarded unchanged.

use crate::saturating_inc;
use crate::token::TokenState;
use vstd::prelude::*;

verus! {

/// The mathematical state of a one-shot session.
pub ghost struct OneShotModel {
    /// Who currently owns the context token.
    pub token: TokenState,
    /// The value the completion resolved with, if any.
    pub outcome: Option<u64>,
    /// Whether the consumer still waits for the completion.
    pub consumer_waiting: bool,
    /// How many callbacks arrived after the token was already reclaimed.
    pub violations: u64,
}

impl OneShotModel {
    /// The state of a freshly armed session: token loaned out, nothing
    /// resolved, consumer waiting, no violations.
    pub open spec fn init() -> OneShotModel {
        OneShotModel {
            token: TokenState::Loaned,
            outcome: None,
            consumer_waiting: true,
            violations: 0,
        }
    }

    /// One foreign callback carrying `value`.  While the token is loaned,
    /// the callback reclaims it and delivers the value — unless the consumer
    /// already walked away, in which case the delivery is a no-op.  Once the
    /// token is reclaimed, a further callback only bumps the violation
    /// count.
    pub open spec fn step_callback(m: OneShotModel, value: u64) -> OneShotModel {
        if m.token is Loaned {
            OneShotModel {
                token: TokenState::Reclaimed,
                outcome: if m.consumer_waiting {
                    Some(value)
                } else {
                    m.outcome
                },
                ..m
            }
        } else {
            OneShotModel { violations: saturating_inc(m.violations), ..m }
        }
    }

    /// The consumer stops waiting.  Whatever already resolved stays
    /// resolved; nothing new will be delivered.
    pub open spec fn step_abandon(m: OneShotModel) -> OneShotModel {
        OneShotModel { consumer_waiting: false, ..m }
    }
}

/// The bridge-side state of one one-shot call.
pub struct OneShotCall {
    token: TokenState,
    outcome: Option<u64>,
    consumer_waiting: bool,
    violations: u64,
}

impl View for OneShotCall {
    type V = OneShotModel;

    closed spec fn view(&self) -> OneShotModel {
        OneShotModel {
            token: self.token,
            outcome: self.outcome,
            consumer_waiting: self.consumer_waiting,
            violations: self.violations,
        }
    }
}

impl OneShotCall {
    /// Arm a new session, conceptually loaning its token to the foreign
    /// side.
    pub fn new() -> (s: Self)
        ensures
            s@ == OneShotModel::init(),
    {
        OneShotCall {
            token: TokenState::Loaned,
            outcome: None,
            consumer_waiting: true,
            violations: 0,
        }
    }

    /// The trampoline's decision on one foreign callback.  No precondition:
    /// the foreign side calls back whenever it pleases, and every state must
    /// have a safe answer.
    pub fn on_callback(&mut self, value: u64)
        ensures
            final(self)@ == OneShotModel::step_callback(old(self)@, value),
    {
        match self.token {
            TokenState::Loaned => {
                self.token = TokenState::Reclaimed;
                if self.consumer_waiting {
                    self.outcome = Some(value);
                }
            }
            TokenState::Reclaimed => {
                if self.violations < u64::MAX {
                    self.violations = self.violations + 1;
                }
            }
        }
    }

    /// The consumer abandons the completion before (or after) resolution.
    pub fn abandon(&mut self)
        ensures
            final(self)@ == OneShotModel::step_abandon(old(self)@),
    {
        self.consumer_waiting = false;
    }

    /// What the completion resolved with, if anything yet.
    pub fn try_take(&self) -> (r: Option<u64>)
        ensures
            r == self@.outcome,
    {
        self.outcome
    }

    /// Who currently owns the context token.
    pub fn token_state(&self) -> (r: TokenState)
        ensures
            r == self@.token,
    {
        self.token
    }

    /// How many callbacks arrived after the token was already reclaimed.
    pub fn violation_count(&self) -> (r: u64)
        ensures
            r == self@.violations,
    {
        self.violations
    }
}

/// The state after a whole sequence of foreign callbacks.
pub open spec fn run_callbacks(m: OneShotModel, values: Seq<u64>) -> OneShotModel
    decreases values.len(),
{
    if values.len() == 0 {
        m
    } else {
        run_callbacks(OneShotModel::step_callback(m, values[0]), values.drop_first())
    }
}

/// Once the token is reclaimed, no sequence of further callbacks changes the
/// outcome or the token: each one is merely counted.
pub proof fn lemma_reclaimed_is_stable(m: OneShotModel, values: Seq<u64>)
    requires
        m.token is Reclaimed,
    ensures
        run_callbacks(m, values).outcome == m.outcome,
        run_callbacks(m, values).token is Reclaimed,
        run_callbacks(m, values).consumer_waiting == m.consumer_waiting,
        m.violations + values.len() <= u64::MAX ==> run_callbacks(m, values).violations == m.violations + values.len(),
    decreases values.len(),
{
    if values.len() > 0 {
        lemma_reclaimed_is_stable(OneShotModel::step_callback(m, values[0]), values.drop_first());
    }
}

/// A one-shot session resolves with exactly the first value the foreign side
/// delivers, and never resolves twice: every later callback reclaims
/// nothing, delivers nothing, and is counted as a protocol violation.
pub proof fn lemma_resolves_exactly_once(values: Seq<u64>)
    requires
        values.len() >= 1,
    ensures
        run_callbacks(OneShotModel::init(), values).outcome == Some(values[0]),
        run_callbacks(OneShotModel::init(), values).token is Reclaimed,
        values.len() <= u64::MAX ==> run_callbacks(OneShotModel::init(), values).violations == values.len() - 1,
{
    let resolved = OneShotModel::step_callback(OneShotModel::init(), values[0]);
    lemma_reclaimed_is_stable(resolved, values.drop_first());
}

/// Delivering into an abandoned session is a no-op that still honours the
/// token discipline: the outcome stays as it was, and a loaned token is
/// reclaimed by the callback — so the consumer walking away leaks nothing
/// beyond what the foreign side never returns.
pub proof fn lemma_abandoned_send_is_noop(m: OneShotModel, value: u64)
    requires
        !m.consumer_waiting,
    ensures
        OneShotModel::step_callback(m, value).outcome == m.outcome,
        m.token is Loaned ==> OneShotModel::step_callback(m, value) == (OneShotModel {
            token: TokenState::Reclaimed,
            ..m
        }),
{
}

} // verus!
