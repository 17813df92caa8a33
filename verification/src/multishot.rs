//! The multi-shot streaming bridge.
//!
//! A multi-shot call hands the foreign side a context token and expects the
//! fixed trampoline to be invoked repeatedly, once per produced value.  The
//! trampoline answers each invocation with a boolean: `true` to keep the
//! callbacks coming, `false` to end the sequence.  The session here decides
//! that answer and records every delivery: values are appended in invocation
//! order, and the sequence ends exactly when the foreign side signals that
//! no more will follow or when a configured invocation limit is reached —
//! whichever comes first.  Ending the sequence freezes the consumer-visible
//! stream: a callback that arrives after that is a protocol violation, and
//! the bridge pushes its value anyway and counts the violation rather than
//! crash — the late value lies beyond the frozen stream boundary, so the
//! consumer, who already observed end-of-stream, never sees it.
//!
//! Values are 64-bit patterns and are forwarded unchanged.

use crate::saturating_inc;
use crate::token::TokenState;
use vstd::prelude::*;

verus! {

/// The mathematical state of a multi-shot session.
pub ghost struct MultiShotModel {
    /// Every value the foreign side handed over, in invocation order —
    /// including values pushed by protocol-violating late callbacks.
    pub values: Seq<u64>,
    /// How much of `values` the consumer-visible stream holds.  It tracks
    /// the deliveries while the sequence is open and freezes at
    /// termination: `values` beyond this boundary arrived too late to be
    /// observed.
    pub stream_len: int,
    /// The configured maximum number of invocations.
    pub limit: int,
    /// Whether the sequence has ended.
    pub terminated: bool,
    /// Who currently owns the context token.
    pub token: TokenState,
    /// How many callbacks arrived after the sequence had ended.
    pub violations: u64,
}

impl MultiShotModel {
    /// The state of a freshly armed session with the given invocation
    /// limit: nothing delivered, token loaned out, sequence open.
    pub open spec fn init(limit: int) -> MultiShotModel {
        MultiShotModel {
            values: Seq::empty(),
            stream_len: 0,
            limit,
            terminated: false,
            token: TokenState::Loaned,
            violations: 0,
        }
    }

    /// An open session has room for at least one more delivery and a stream
    /// that keeps up with the deliveries; a terminated session's stream
    /// boundary never passes what was pushed.
    pub open spec fn wf(self) -> bool {
        &&& !self.terminated ==> self.values.len() < self.limit && self.stream_len
            == self.values.len()
        &&& self.terminated ==> self.stream_len <= self.values.len()
    }

    /// One foreign callback carrying `value`, where `foreign_more` is the
    /// foreign side's claim that more callbacks will follow.  The value is
    /// appended either way.  While the sequence is open the stream boundary
    /// advances over it, and the sequence then ends if the foreign side
    /// said stop or the limit is now reached; ending reclaims the token.
    /// After termination the boundary stays frozen and the callback bumps
    /// the violation count.
    pub open spec fn step(m: MultiShotModel, value: u64, foreign_more: bool) -> MultiShotModel {
        if m.terminated {
            MultiShotModel {
                values: m.values.push(value),
                violations: saturating_inc(m.violations),
                ..m
            }
        } else {
            let values = m.values.push(value);
            let done = !foreign_more || values.len() >= m.limit;
            MultiShotModel {
                values,
                stream_len: values.len() as int,
                terminated: done,
                token: if done {
                    TokenState::Reclaimed
                } else {
                    m.token
                },
                ..m
            }
        }
    }
}

/// A step keeps a session well-formed.
pub proof fn lemma_step_preserves_wf(m: MultiShotModel, value: u64, foreign_more: bool)
    requires
        m.wf(),
    ensures
        MultiShotModel::step(m, value, foreign_more).wf(),
{
}

/// The bridge-side state of one multi-shot call.
pub struct MultiShotCall {
    values: Vec<u64>,
    stream_len: usize,
    limit: usize,
    terminated: bool,
    token: TokenState,
    violations: u64,
}

impl View for MultiShotCall {
    type V = MultiShotModel;

    closed spec fn view(&self) -> MultiShotModel {
        MultiShotModel {
            values: self.values@,
            stream_len: self.stream_len as int,
            limit: self.limit as int,
            terminated: self.terminated,
            token: self.token,
            violations: self.violations,
        }
    }
}

impl MultiShotCall {
    /// Arm a new session that will accept at most `limit` invocations,
    /// conceptually loaning its token to the foreign side.  A limit of zero
    /// would describe a call that must not happen at all, so at least one
    /// invocation must be allowed.
    pub fn new(limit: usize) -> (s: Self)
        requires
            limit >= 1,
        ensures
            s@ == MultiShotModel::init(limit as int),
    {
        MultiShotCall {
            values: Vec::new(),
            stream_len: 0,
            limit,
            terminated: false,
            token: TokenState::Loaned,
            violations: 0,
        }
    }

    /// The trampoline's decision on one foreign callback: record the
    /// delivery and answer whether the foreign side should keep calling.
    /// No precondition: the foreign side calls back whenever it pleases,
    /// and every state must have a safe answer.
    pub fn on_callback(&mut self, value: u64, foreign_more: bool) -> (cont: bool)
        ensures
            final(self)@ == MultiShotModel::step(old(self)@, value, foreign_more),
            cont == !final(self)@.terminated,
    {
        if self.terminated {
            self.values.push(value);
            if self.violations < u64::MAX {
                self.violations = self.violations + 1;
            }
            false
        } else {
            self.values.push(value);
            self.stream_len = self.values.len();
            let done = !foreign_more || self.values.len() >= self.limit;
            if done {
                self.terminated = true;
                self.token = TokenState::Reclaimed;
            }
            !done
        }
    }

    /// How many values the foreign side has pushed so far, late ones
    /// included.
    pub fn value_count(&self) -> (r: usize)
        ensures
            r == self@.values.len(),
    {
        self.values.len()
    }

    /// The `i`-th pushed value, in invocation order.
    pub fn value_at(&self, i: usize) -> (r: u64)
        requires
            i < self@.values.len(),
        ensures
            r == self@.values[i as int],
    {
        self.values[i]
    }

    /// How much of the pushed sequence the consumer-visible stream holds.
    pub fn stream_len(&self) -> (r: usize)
        ensures
            r == self@.stream_len,
    {
        self.stream_len
    }

    /// Whether the sequence has ended.
    pub fn is_terminated(&self) -> (r: bool)
        ensures
            r == self@.terminated,
    {
        self.terminated
    }

    /// The configured maximum number of invocations.
    pub fn limit(&self) -> (r: usize)
        ensures
            r == self@.limit,
    {
        self.limit
    }

    /// Who currently owns the context token.
    pub fn token_state(&self) -> (r: TokenState)
        ensures
            r == self@.token,
    {
        self.token
    }

    /// How many callbacks arrived after the sequence had ended.
    pub fn violation_count(&self) -> (r: u64)
        ensures
            r == self@.violations,
    {
        self.violations
    }
}

/// The state after a whole sequence of foreign callbacks, each a pair of
/// the carried value and the foreign side's more-to-come claim.
pub open spec fn run(m: MultiShotModel, events: Seq<(u64, bool)>) -> MultiShotModel
    decreases events.len(),
{
    if events.len() == 0 {
        m
    } else {
        run(MultiShotModel::step(m, events[0].0, events[0].1), events.drop_first())
    }
}

/// The values the events carry, in invocation order.
pub open spec fn values_of(events: Seq<(u64, bool)>) -> Seq<u64>
    decreases events.len(),
{
    if events.len() == 0 {
        Seq::empty()
    } else {
        seq![events[0].0].add(values_of(events.drop_first()))
    }
}

/// Whether the `i`-th of `events` ends a sequence that starts at `m`: the
/// foreign side says stop there, or that invocation reaches the limit.
pub open spec fn stops_at(m: MultiShotModel, events: Seq<(u64, bool)>, i: int) -> bool {
    !events[i].1 || m.values.len() + i + 1 >= m.limit
}

/// The values a session with `room` deliveries left streams out of
/// `events`: everything up to and including the first stopping invocation,
/// in order.
pub open spec fn accepted(room: int, events: Seq<(u64, bool)>) -> Seq<u64>
    decreases events.len(),
{
    if events.len() == 0 {
        Seq::empty()
    } else if room <= 1 || !events[0].1 {
        seq![events[0].0]
    } else {
        seq![events[0].0].add(accepted(room - 1, events.drop_first()))
    }
}

/// Every callback appends exactly its value, in invocation order, whatever
/// state the session is in: the pushed sequence after a run is the old one
/// followed by the event values — nothing reordered, nothing dropped.
pub proof fn lemma_values_in_order(m: MultiShotModel, events: Seq<(u64, bool)>)
    ensures
        run(m, events).values == m.values + values_of(events),
    decreases events.len(),
{
    if events.len() == 0 {
        assert(m.values + values_of(events) =~= m.values);
    } else {
        lemma_values_in_order(MultiShotModel::step(m, events[0].0, events[0].1), events.drop_first());
        assert(run(m, events).values =~= m.values + values_of(events));
    }
}

/// After termination the stream boundary, the termination flag and the
/// token are frozen: a late callback sequence only pushes past the boundary
/// and is counted, invocation by invocation.
pub proof fn lemma_terminated_is_frozen(m: MultiShotModel, events: Seq<(u64, bool)>)
    requires
        m.terminated,
    ensures
        run(m, events).stream_len == m.stream_len,
        run(m, events).terminated,
        run(m, events).token == m.token,
        m.violations + events.len() <= u64::MAX ==> run(m, events).violations == m.violations + events.len(),
    decreases events.len(),
{
    if events.len() > 0 {
        lemma_terminated_is_frozen(MultiShotModel::step(m, events[0].0, events[0].1), events.drop_first());
    }
}

/// The consumer-visible stream holds exactly the right values in the right
/// order: after any callback sequence against an open session, the stream
/// is the old deliveries followed by the event values up to and including
/// the first stopping invocation — and nothing later, however many late
/// callbacks were pushed past the boundary.
pub proof fn lemma_stream_in_order(m: MultiShotModel, events: Seq<(u64, bool)>)
    requires
        !m.terminated,
        m.wf(),
    ensures
        run(m, events).values.take(run(m, events).stream_len) == m.values + accepted(
            m.limit - m.values.len(),
            events,
        ),
    decreases events.len(),
{
    let end = run(m, events);
    let room = m.limit - m.values.len();
    if events.len() == 0 {
        assert(end.values.take(end.stream_len) =~= m.values + accepted(room, events));
    } else {
        let value = events[0].0;
        let foreign_more = events[0].1;
        let m2 = MultiShotModel::step(m, value, foreign_more);
        let rest = events.drop_first();
        if m2.terminated {
            lemma_terminated_is_frozen(m2, rest);
            lemma_values_in_order(m2, rest);
            assert(end.values.take(end.stream_len) =~= m.values + accepted(room, events));
        } else {
            lemma_stream_in_order(m2, rest);
            assert(m2.values + accepted(m2.limit - m2.values.len(), rest) =~= m.values + accepted(
                room,
                events,
            ));
        }
    }
}

/// The sequence terminates exactly when it must: after any callback
/// sequence, an open session has ended if and only if some invocation
/// either carried the foreign side's stop signal or reached the limit.
pub proof fn lemma_terminates_iff(m: MultiShotModel, events: Seq<(u64, bool)>)
    requires
        !m.terminated,
        m.wf(),
    ensures
        run(m, events).terminated <==> exists|i: int|
            0 <= i < events.len() && #[trigger] stops_at(m, events, i),
    decreases events.len(),
{
    if events.len() == 0 {
    } else {
        let value = events[0].0;
        let foreign_more = events[0].1;
        let m2 = MultiShotModel::step(m, value, foreign_more);
        let rest = events.drop_first();
        if m2.terminated {
            assert(stops_at(m, events, 0));
            lemma_terminated_is_frozen(m2, rest);
        } else {
            lemma_terminates_iff(m2, rest);
            assert(!stops_at(m, events, 0));
            if exists|i: int| 0 <= i < rest.len() && #[trigger] stops_at(m2, rest, i) {
                let i = choose|i: int| 0 <= i < rest.len() && #[trigger] stops_at(m2, rest, i);
                assert(stops_at(m, events, i + 1));
            }
            if exists|i: int| 0 <= i < events.len() && #[trigger] stops_at(m, events, i) {
                let i = choose|i: int| 0 <= i < events.len() && #[trigger] stops_at(m, events, i);
                assert(i >= 1);
                assert(stops_at(m2, rest, i - 1));
            }
        }
    }
}

} // verus!
