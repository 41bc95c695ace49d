//! The batch orchestrator: which batches of probes are running, which results
//! may still be delivered, and when a batch is complete.
//!
//! A batch is the set of probes started by one request. It is registered under
//! a key (the target) and gets a session number that no other batch ever
//! gets. The caller runs the probes; before it hands a result on it asks the
//! registry, with the key and the session under which the probe was started,
//! whether that batch is still the one running. All access to a
//! [`BatchRegistry`] is through `&mut self` or `&self`, so callers that share
//! one put it behind a lock.

use crate::docker::{
    image_name_accepted, regex_match, validate_docker_image_name, IMAGE_NAME_PATTERN,
};
use crate::text::{occurs_at, starts_with, trim, trimmed};
use vstd::prelude::*;
use vstd::string::*;

verus! {

/// What the registry knows of one running batch.
pub struct BatchView {
    pub key: Seq<char>,
    pub session: nat,
    /// How many probes the batch has.
    pub total: nat,
    /// How many of their results have been delivered.
    pub delivered: nat,
}

/// What a registry holds: the next session number and the running batches.
pub struct RegistryView {
    pub next_session: nat,
    pub batches: Seq<BatchView>,
}

/// A request to the registry.
pub enum BatchEvent {
    /// A batch of `total` probes starts under `key`.
    Start { key: Seq<char>, total: nat },
    /// A probe that was started under `key` in session `session` has a result.
    Result { key: Seq<char>, session: nat },
    /// Everything that runs is cancelled.
    Cancel,
}

/// The registry's answer to a request.
pub enum BatchSignal {
    /// No session number is left: nothing was started.
    Refused,
    /// The batch runs as `session`. The batch `superseded` ran under the same
    /// key and is aborted. Where `complete`, the batch has no probes and its
    /// completion is to be signalled at once.
    Started { session: nat, superseded: Option<nat>, complete: bool },
    /// The result belongs to the running batch: deliver it.
    Deliver { session: nat },
    /// Deliver the result, then signal that the batch is complete.
    DeliverLast { session: nat },
    /// The result belongs to no running batch: drop it.
    Discard,
    /// These sessions were running and are aborted.
    Cancelled { sessions: Seq<nat> },
}

/// The batch at `i` is the first one under `key`.
pub open spec fn is_first_match(batches: Seq<BatchView>, key: Seq<char>, i: int) -> bool {
    &&& 0 <= i < batches.len()
    &&& batches[i].key == key
    &&& forall|j: int| 0 <= j < i ==> (#[trigger] batches[j]).key != key
}

/// Where the batch under `key` stands in the list, if one runs.
pub open spec fn lookup(batches: Seq<BatchView>, key: Seq<char>) -> Option<int> {
    if exists|i: int| is_first_match(batches, key, i) {
        Some(choose|i: int| is_first_match(batches, key, i))
    } else {
        None
    }
}

/// The sessions of `batches`, in order.
pub open spec fn sessions_of(batches: Seq<BatchView>) -> Seq<nat> {
    Seq::new(batches.len(), |i: int| batches[i].session)
}

impl RegistryView {
    /// No two running batches share a key or a session, every running batch
    /// has a session below the next one and still waits for a result.
    pub open spec fn wf(self) -> bool {
        &&& self.next_session <= u64::MAX
        &&& forall|i: int, j: int|
            0 <= i < j < self.batches.len() ==> {
                &&& (#[trigger] self.batches[i]).key != (#[trigger] self.batches[j]).key
                &&& self.batches[i].session != self.batches[j].session
            }
        &&& forall|i: int|
            0 <= i < self.batches.len() ==> {
                &&& (#[trigger] self.batches[i]).session < self.next_session
                &&& self.batches[i].delivered < self.batches[i].total
            }
    }

    /// The batch `session` runs.
    pub open spec fn is_running(self, session: nat) -> bool {
        exists|i: int| 0 <= i < self.batches.len() && (#[trigger] self.batches[i]).session == session
    }

    /// A batch of `total` probes starts under `key`: it gets the next session
    /// number and takes the place of the batch that ran under `key`, if any.
    /// A batch without probes is complete at once and is not kept. Where the
    /// session numbers are used up, nothing changes.
    pub open spec fn start(self, key: Seq<char>, total: nat) -> (RegistryView, BatchSignal) {
        if self.next_session >= u64::MAX {
            (self, BatchSignal::Refused)
        } else {
            let session = self.next_session;
            let found = lookup(self.batches, key);
            let rest = match found {
                Some(i) => self.batches.remove(i),
                None => self.batches,
            };
            let superseded = match found {
                Some(i) => Some(self.batches[i].session),
                None => None,
            };
            let batches = if total == 0 {
                rest
            } else {
                rest.push(BatchView { key, session, total, delivered: 0 })
            };
            (
                RegistryView { next_session: session + 1, batches },
                BatchSignal::Started { session, superseded, complete: total == 0 },
            )
        }
    }

    /// A probe started under `key` in `session` has a result. It is delivered
    /// only if the batch running under `key` is that session; the last result
    /// of a batch completes it and takes it off the list.
    pub open spec fn record(self, key: Seq<char>, session: nat) -> (RegistryView, BatchSignal) {
        match lookup(self.batches, key) {
            Some(i) => {
                let b = self.batches[i];
                if b.session != session {
                    (self, BatchSignal::Discard)
                } else if b.delivered + 1 >= b.total {
                    (
                        RegistryView { batches: self.batches.remove(i), ..self },
                        BatchSignal::DeliverLast { session },
                    )
                } else {
                    (
                        RegistryView {
                            batches: self.batches.update(
                                i,
                                BatchView { delivered: b.delivered + 1, ..b },
                            ),
                            ..self
                        },
                        BatchSignal::Deliver { session },
                    )
                }
            },
            None => (self, BatchSignal::Discard),
        }
    }

    /// Everything that runs is aborted.
    pub open spec fn cancel(self) -> (RegistryView, BatchSignal) {
        (
            RegistryView { batches: Seq::empty(), ..self },
            BatchSignal::Cancelled { sessions: sessions_of(self.batches) },
        )
    }

    /// The registry after `event`, and its answer.
    pub open spec fn step(self, event: BatchEvent) -> (RegistryView, BatchSignal) {
        match event {
            BatchEvent::Start { key, total } => self.start(key, total),
            BatchEvent::Result { key, session } => self.record(key, session),
            BatchEvent::Cancel => self.cancel(),
        }
    }

    /// The registry after `events`, in order.
    pub open spec fn after(self, events: Seq<BatchEvent>) -> RegistryView
        decreases events.len(),
    {
        if events.len() == 0 {
            self
        } else {
            self.step(events[0]).0.after(events.skip(1))
        }
    }

    /// The answers to `events`, in order.
    pub open spec fn answers(self, events: Seq<BatchEvent>) -> Seq<BatchSignal>
        decreases events.len(),
    {
        if events.len() == 0 {
            Seq::empty()
        } else {
            seq![self.step(events[0]).1] + self.step(events[0]).0.answers(events.skip(1))
        }
    }
}

/// `signal` delivers a result of `session`.
pub open spec fn delivers(signal: BatchSignal, session: nat) -> bool {
    signal == (BatchSignal::Deliver { session }) || signal == (BatchSignal::DeliverLast { session })
}

/// `signal` says that `session` is complete.
pub open spec fn completes(signal: BatchSignal, session: nat) -> bool {
    signal == (BatchSignal::DeliverLast { session }) || (signal matches BatchSignal::Started {
        session: s,
        complete,
        ..
    } && s == session && complete)
}

/// How many of `signals` deliver a result of `session`.
pub open spec fn deliveries(signals: Seq<BatchSignal>, session: nat) -> nat
    decreases signals.len(),
{
    if signals.len() == 0 {
        0
    } else {
        (if delivers(signals[0], session) {
            1nat
        } else {
            0nat
        }) + deliveries(signals.skip(1), session)
    }
}

/// How many of `signals` say that `session` is complete.
pub open spec fn completions(signals: Seq<BatchSignal>, session: nat) -> nat
    decreases signals.len(),
{
    if signals.len() == 0 {
        0
    } else {
        (if completes(signals[0], session) {
            1nat
        } else {
            0nat
        }) + completions(signals.skip(1), session)
    }
}

/// How many of `events` report a result for `session` under `key`.
pub open spec fn results_for(events: Seq<BatchEvent>, key: Seq<char>, session: nat) -> nat
    decreases events.len(),
{
    if events.len() == 0 {
        0
    } else {
        (if events[0] == (BatchEvent::Result { key, session }) {
            1nat
        } else {
            0nat
        }) + results_for(events.skip(1), key, session)
    }
}

/// None of `events` cancels, and none starts a batch under `key`.
pub open spec fn undisturbed(events: Seq<BatchEvent>, key: Seq<char>) -> bool {
    forall|i: int|
        0 <= i < events.len() ==> {
            &&& #[trigger] events[i] != BatchEvent::Cancel
            &&& !(events[i] matches BatchEvent::Start { key: k, .. } && k == key)
        }
}

/// `events` without the results reported for `session`.
pub open spec fn without_results(events: Seq<BatchEvent>, session: nat) -> Seq<BatchEvent>
    decreases events.len(),
{
    if events.len() == 0 {
        Seq::empty()
    } else if events[0] matches BatchEvent::Result { session: s, .. } && s == session {
        without_results(events.skip(1), session)
    } else {
        seq![events[0]] + without_results(events.skip(1), session)
    }
}

/// A first match is the one that `lookup` finds.
pub proof fn lemma_first_match(batches: Seq<BatchView>, key: Seq<char>, i: int)
    requires
        is_first_match(batches, key, i),
    ensures
        lookup(batches, key) == Some(i),
{
    let k = choose|k: int| is_first_match(batches, key, k);
    assert(is_first_match(batches, key, k));
    if k < i {
        assert(batches[k].key != key);
    } else if i < k {
        assert(batches[i].key != key);
    }
}

/// Under distinct keys, a batch under `key` is the one that `lookup` finds.
pub proof fn lemma_lookup_unique(s: RegistryView, key: Seq<char>, i: int)
    requires
        s.wf(),
        0 <= i < s.batches.len(),
        s.batches[i].key == key,
    ensures
        lookup(s.batches, key) == Some(i),
{
    assert(is_first_match(s.batches, key, i));
    let k = choose|k: int| is_first_match(s.batches, key, k);
    assert(is_first_match(s.batches, key, k));
}

/// `lookup` answers `None` only where no batch runs under `key`, and
/// otherwise with the place of a batch under `key`.
pub proof fn lemma_lookup(batches: Seq<BatchView>, key: Seq<char>)
    ensures
        match lookup(batches, key) {
            Some(i) => is_first_match(batches, key, i),
            None => forall|j: int| 0 <= j < batches.len() ==> (#[trigger] batches[j]).key != key,
        },
{
    if exists|i: int| is_first_match(batches, key, i) {
    } else {
        assert forall|j: int| 0 <= j < batches.len() implies (#[trigger] batches[j]).key
            != key by {
            lemma_no_match_upto(batches, key, j + 1);
        }
    }
}

proof fn lemma_no_match_upto(batches: Seq<BatchView>, key: Seq<char>, n: int)
    requires
        0 <= n <= batches.len(),
        !(exists|i: int| is_first_match(batches, key, i)),
    ensures
        forall|j: int| 0 <= j < n ==> (#[trigger] batches[j]).key != key,
    decreases n,
{
    if n > 0 {
        lemma_no_match_upto(batches, key, n - 1);
        if batches[n - 1].key == key {
            assert(is_first_match(batches, key, n - 1));
        }
    }
}

/// Every request leaves a well-formed registry well-formed, and never lowers
/// the next session number.
pub proof fn lemma_step_wf(s: RegistryView, event: BatchEvent)
    requires
        s.wf(),
    ensures
        s.step(event).0.wf(),
        s.step(event).0.next_session >= s.next_session,
{
    let next = s.step(event).0;
    match event {
        BatchEvent::Start { key, total } => {
            lemma_lookup(s.batches, key);
            if s.next_session < u64::MAX {
                let rest = match lookup(s.batches, key) {
                    Some(i) => s.batches.remove(i),
                    None => s.batches,
                };
                assert forall|j: int| 0 <= j < rest.len() implies (#[trigger] rest[j]).key
                    != key && rest[j].session < s.next_session && rest[j].delivered
                    < rest[j].total by {
                    match lookup(s.batches, key) {
                        Some(i) => {
                            if j < i {
                                assert(rest[j] == s.batches[j]);
                            } else {
                                assert(rest[j] == s.batches[j + 1]);
                            }
                        },
                        None => {},
                    }
                }
                assert forall|a: int, b: int| 0 <= a < b < rest.len() implies (
                #[trigger] rest[a]).key != (#[trigger] rest[b]).key && rest[a].session
                    != rest[b].session by {
                    match lookup(s.batches, key) {
                        Some(i) => {
                            let a0 = if a < i {
                                a
                            } else {
                                a + 1
                            };
                            let b0 = if b < i {
                                b
                            } else {
                                b + 1
                            };
                            assert(rest[a] == s.batches[a0]);
                            assert(rest[b] == s.batches[b0]);
                        },
                        None => {},
                    }
                }
                assert(next.wf());
            }
        },
        BatchEvent::Result { key, session } => {
            lemma_lookup(s.batches, key);
            match lookup(s.batches, key) {
                Some(i) => {
                    let rest = next.batches;
                    if s.batches[i].session == session && s.batches[i].delivered + 1
                        >= s.batches[i].total {
                        assert forall|a: int, b: int| 0 <= a < b < rest.len() implies (
                        #[trigger] rest[a]).key != (#[trigger] rest[b]).key && rest[a].session
                            != rest[b].session by {
                            let a0 = if a < i {
                                a
                            } else {
                                a + 1
                            };
                            let b0 = if b < i {
                                b
                            } else {
                                b + 1
                            };
                            assert(rest[a] == s.batches[a0]);
                            assert(rest[b] == s.batches[b0]);
                        }
                        assert forall|j: int| 0 <= j < rest.len() implies (
                        #[trigger] rest[j]).session < next.next_session && rest[j].delivered
                            < rest[j].total by {
                            let j0 = if j < i {
                                j
                            } else {
                                j + 1
                            };
                            assert(rest[j] == s.batches[j0]);
                        }
                    } else if s.batches[i].session == session {
                        assert forall|a: int, b: int| 0 <= a < b < rest.len() implies (
                        #[trigger] rest[a]).key != (#[trigger] rest[b]).key && rest[a].session
                            != rest[b].session by {
                            assert(rest[a].key == s.batches[a].key);
                            assert(rest[b].key == s.batches[b].key);
                            assert(rest[a].session == s.batches[a].session);
                            assert(rest[b].session == s.batches[b].session);
                        }
                        assert forall|j: int| 0 <= j < rest.len() implies (
                        #[trigger] rest[j]).session < next.next_session && rest[j].delivered
                            < rest[j].total by {
                            if j != i {
                                assert(rest[j] == s.batches[j]);
                            }
                        }
                    }
                    assert(next.wf());
                },
                None => {},
            }
        },
        BatchEvent::Cancel => {},
    }
}

/// The answers to a first request and to those that follow it.
pub proof fn lemma_answers_unfold(s: RegistryView, events: Seq<BatchEvent>)
    requires
        events.len() > 0,
    ensures
        s.answers(events) == seq![s.step(events[0]).1] + s.step(events[0]).0.answers(
            events.skip(1),
        ),
        s.answers(events)[0] == s.step(events[0]).1,
        s.answers(events).skip(1) == s.step(events[0]).0.answers(events.skip(1)),
{
    let head = seq![s.step(events[0]).1];
    let tail = s.step(events[0]).0.answers(events.skip(1));
    assert((head + tail).skip(1) =~= tail);
}

/// One request to a registry in which `session`, a number already given out,
/// does not run: the answer neither delivers for it nor completes it, and it
/// does not run afterwards.
pub proof fn lemma_step_keeps_finished(s: RegistryView, event: BatchEvent, session: nat)
    requires
        s.wf(),
        session < s.next_session,
        !s.is_running(session),
    ensures
        !delivers(s.step(event).1, session),
        !completes(s.step(event).1, session),
        !s.step(event).0.is_running(session),
        session < s.step(event).0.next_session,
        s.step(event).0.wf(),
{
    lemma_step_wf(s, event);
    let next = s.step(event).0;
    assert forall|j: int| 0 <= j < s.batches.len() implies (#[trigger] s.batches[j]).session
        != session by {}
    match event {
        BatchEvent::Start { key, total } => {
            lemma_lookup(s.batches, key);
            if s.next_session < u64::MAX {
                assert forall|j: int| 0 <= j < next.batches.len() implies (
                #[trigger] next.batches[j]).session != session by {
                    let rest = match lookup(s.batches, key) {
                        Some(i) => s.batches.remove(i),
                        None => s.batches,
                    };
                    if j < rest.len() {
                        match lookup(s.batches, key) {
                            Some(i) => {
                                let j0 = if j < i {
                                    j
                                } else {
                                    j + 1
                                };
                                assert(rest[j] == s.batches[j0]);
                            },
                            None => {},
                        }
                    }
                }
            }
        },
        BatchEvent::Result { key, session: reported } => {
            lemma_lookup(s.batches, key);
            match lookup(s.batches, key) {
                Some(i) => {
                    assert(s.batches[i].session != session);
                    assert forall|j: int| 0 <= j < next.batches.len() implies (
                    #[trigger] next.batches[j]).session != session by {
                        if next.batches.len() < s.batches.len() {
                            let j0 = if j < i {
                                j
                            } else {
                                j + 1
                            };
                            assert(next.batches[j] == s.batches[j0]);
                        } else {
                            assert(next.batches[j].session == s.batches[j].session);
                        }
                    }
                },
                None => {},
            }
        },
        BatchEvent::Cancel => {},
    }
}

/// A session that has been given out and does not run is never heard of
/// again: whatever is requested, no answer delivers for it or completes it.
pub proof fn lemma_finished_is_silent(s: RegistryView, events: Seq<BatchEvent>, session: nat)
    requires
        s.wf(),
        session < s.next_session,
        !s.is_running(session),
    ensures
        deliveries(s.answers(events), session) == 0,
        completions(s.answers(events), session) == 0,
    decreases events.len(),
{
    if events.len() > 0 {
        lemma_step_keeps_finished(s, events[0], session);
        lemma_answers_unfold(s, events);
        lemma_finished_is_silent(s.step(events[0]).0, events.skip(1), session);
    }
}

/// A running batch, over any requests: it delivers no more results than it
/// still waits for, is completed at most once and exactly when all of them
/// are delivered, and delivers all of them if it is not disturbed and enough
/// of its probes report.
pub proof fn lemma_running_is_bounded(s: RegistryView, events: Seq<BatchEvent>, i: int)
    requires
        s.wf(),
        0 <= i < s.batches.len(),
    ensures
        ({
            let b = s.batches[i];
            let left = b.total - b.delivered;
            let signals = s.answers(events);
            &&& deliveries(signals, b.session) <= left
            &&& completions(signals, b.session) <= 1
            &&& completions(signals, b.session) == 1 <==> deliveries(signals, b.session) == left
            &&& undisturbed(events, b.key) && results_for(events, b.key, b.session) >= left
                ==> deliveries(signals, b.session) == left
        }),
    decreases events.len(),
{
    let b = s.batches[i];
    if events.len() > 0 {
        let event = events[0];
        let next = s.step(event).0;
        let signal = s.step(event).1;
        let rest = events.skip(1);
        lemma_step_wf(s, event);
        lemma_answers_unfold(s, events);
        assert(undisturbed(events, b.key) ==> undisturbed(rest, b.key)) by {
            if undisturbed(events, b.key) {
                assert forall|k: int| 0 <= k < rest.len() implies {
                    &&& #[trigger] rest[k] != BatchEvent::Cancel
                    &&& !(rest[k] matches BatchEvent::Start { key: kk, .. } && kk == b.key)
                } by {
                    assert(rest[k] == events[k + 1]);
                }
            }
        }
        assert(undisturbed(events, b.key) ==> event != BatchEvent::Cancel && !(
        event matches BatchEvent::Start { key: kk, .. } && kk == b.key));
        match event {
            BatchEvent::Start { key, total } => {
                lemma_lookup(s.batches, key);
                if s.next_session >= u64::MAX {
                    lemma_running_is_bounded(next, rest, i);
                } else if key == b.key {
                    lemma_lookup_unique(s, key, i);
                    assert(!next.is_running(b.session)) by {
                        assert forall|j: int| 0 <= j < next.batches.len() implies (
                        #[trigger] next.batches[j]).session != b.session by {
                            let kept = s.batches.remove(i);
                            if j < kept.len() {
                                let j0 = if j < i {
                                    j
                                } else {
                                    j + 1
                                };
                                assert(kept[j] == s.batches[j0]);
                            }
                        }
                    }
                    lemma_finished_is_silent(next, rest, b.session);
                } else {
                    let i1 = match lookup(s.batches, key) {
                        Some(j) => if j < i {
                            i - 1
                        } else {
                            i
                        },
                        None => i,
                    };
                    assert(next.batches[i1] == b);
                    lemma_running_is_bounded(next, rest, i1);
                }
            },
            BatchEvent::Result { key, session } => {
                lemma_lookup(s.batches, key);
                if key == b.key {
                    lemma_lookup_unique(s, key, i);
                    if session == b.session {
                        if b.delivered + 1 >= b.total {
                            assert(!next.is_running(b.session)) by {
                                assert forall|j: int| 0 <= j < next.batches.len() implies (
                                #[trigger] next.batches[j]).session != b.session by {
                                    let j0 = if j < i {
                                        j
                                    } else {
                                        j + 1
                                    };
                                    assert(next.batches[j] == s.batches[j0]);
                                }
                            }
                            lemma_finished_is_silent(next, rest, b.session);
                        } else {
                            lemma_running_is_bounded(next, rest, i);
                        }
                    } else {
                        lemma_running_is_bounded(next, rest, i);
                    }
                } else {
                    match lookup(s.batches, key) {
                        Some(j) => {
                            assert(j != i);
                            assert(s.batches[j].session != b.session);
                            let i1 = if next.batches.len() < s.batches.len() && j < i {
                                i - 1
                            } else {
                                i
                            };
                            assert(next.batches[i1] == b);
                            lemma_running_is_bounded(next, rest, i1);
                        },
                        None => {
                            lemma_running_is_bounded(next, rest, i);
                        },
                    }
                }
            },
            BatchEvent::Cancel => {
                assert(!next.is_running(b.session));
                lemma_finished_is_silent(next, rest, b.session);
            },
        }
    }
}

/// A batch of `total` probes that starts in session `s.next_session` and the
/// requests `events` that follow: the batch delivers at most `total` results
/// and is completed at most once, exactly when all `total` are delivered. If
/// it is neither cancelled nor superseded and at least `total` of its probes
/// report, all `total` results are delivered and it is completed; so it
/// delivers fewer only if it was cancelled or superseded, or probes have yet
/// to report.
pub proof fn lemma_batch_delivers_its_results(
    s: RegistryView,
    key: Seq<char>,
    total: nat,
    events: Seq<BatchEvent>,
)
    requires
        s.wf(),
        s.next_session < u64::MAX,
    ensures
        ({
            let session = s.next_session;
            let signals = s.answers(seq![BatchEvent::Start { key, total }] + events);
            &&& deliveries(signals, session) <= total
            &&& completions(signals, session) <= 1
            &&& completions(signals, session) == 1 <==> deliveries(signals, session) == total
            &&& undisturbed(events, key) && results_for(events, key, session) >= total ==> {
                &&& deliveries(signals, session) == total
                &&& completions(signals, session) == 1
            }
            &&& deliveries(signals, session) < total ==> !undisturbed(events, key) || results_for(
                events,
                key,
                session,
            ) < total
        }),
{
    let session = s.next_session;
    let first = BatchEvent::Start { key, total };
    let all = seq![first] + events;
    assert(all.skip(1) =~= events);
    assert(all[0] == first);
    let next = s.step(first).0;
    lemma_step_wf(s, first);
    lemma_answers_unfold(s, all);
    lemma_lookup(s.batches, key);
    if total == 0 {
        assert(!next.is_running(session)) by {
            assert forall|j: int| 0 <= j < next.batches.len() implies (
            #[trigger] next.batches[j]).session != session by {
                match lookup(s.batches, key) {
                    Some(i) => {
                        let j0 = if j < i {
                            j
                        } else {
                            j + 1
                        };
                        assert(next.batches[j] == s.batches[j0]);
                    },
                    None => {},
                }
            }
        }
        lemma_finished_is_silent(next, events, session);
    } else {
        let last = next.batches.len() - 1;
        assert(next.batches[last] == BatchView { key, session, total, delivered: 0 });
        lemma_running_is_bounded(next, events, last);
    }
}

/// After a cancellation no result of any session that existed before it is
/// delivered, and none of those sessions is completed, whatever their probes
/// report afterwards.
pub proof fn lemma_cancel_silences(s: RegistryView, events: Seq<BatchEvent>, session: nat)
    requires
        s.wf(),
        session < s.next_session,
    ensures
        deliveries(s.cancel().0.answers(events), session) == 0,
        completions(s.cancel().0.answers(events), session) == 0,
{
    lemma_step_wf(s, BatchEvent::Cancel);
    assert(s.step(BatchEvent::Cancel).0 == s.cancel().0);
    lemma_finished_is_silent(s.cancel().0, events, session);
}

/// Starting a batch under the key of a running one supersedes it: the answer
/// names the old session, and afterwards no result of the old session is
/// delivered and it is never completed.
pub proof fn lemma_superseded_is_silent(
    s: RegistryView,
    key: Seq<char>,
    total: nat,
    events: Seq<BatchEvent>,
    i: int,
)
    requires
        s.wf(),
        s.next_session < u64::MAX,
        0 <= i < s.batches.len(),
        s.batches[i].key == key,
    ensures
        s.start(key, total).1 == (BatchSignal::Started {
            session: s.next_session,
            superseded: Some(s.batches[i].session),
            complete: total == 0,
        }),
        deliveries(s.start(key, total).0.answers(events), s.batches[i].session) == 0,
        completions(s.start(key, total).0.answers(events), s.batches[i].session) == 0,
{
    let old_session = s.batches[i].session;
    let first = BatchEvent::Start { key, total };
    let next = s.start(key, total).0;
    lemma_lookup_unique(s, key, i);
    lemma_step_wf(s, first);
    assert(s.step(first).0 == next);
    assert(!next.is_running(old_session)) by {
        assert forall|j: int| 0 <= j < next.batches.len() implies (
        #[trigger] next.batches[j]).session != old_session by {
            let kept = s.batches.remove(i);
            if j < kept.len() {
                let j0 = if j < i {
                    j
                } else {
                    j + 1
                };
                assert(kept[j] == s.batches[j0]);
            }
        }
    }
    lemma_finished_is_silent(next, events, old_session);
}

/// Results reported for a session that does not run change nothing: with or
/// without them the registry ends in the same state, and every other session
/// gets the same deliveries and completions.
pub proof fn lemma_stale_results_change_nothing(
    s: RegistryView,
    events: Seq<BatchEvent>,
    stale: nat,
    session: nat,
)
    requires
        s.wf(),
        stale < s.next_session,
        !s.is_running(stale),
    ensures
        s.after(events) == s.after(without_results(events, stale)),
        deliveries(s.answers(events), session) == deliveries(
            s.answers(without_results(events, stale)),
            session,
        ),
        completions(s.answers(events), session) == completions(
            s.answers(without_results(events, stale)),
            session,
        ),
    decreases events.len(),
{
    if events.len() > 0 {
        let event = events[0];
        let rest = events.skip(1);
        lemma_step_keeps_finished(s, event, stale);
        lemma_answers_unfold(s, events);
        if event matches BatchEvent::Result { session: reported, .. } && reported == stale {
            lemma_lookup(s.batches, event->Result_key);
            assert(s.step(event).0 == s);
            assert(s.step(event).1 == BatchSignal::Discard);
            lemma_stale_results_change_nothing(s, rest, stale, session);
        } else {
            let kept = seq![event] + without_results(rest, stale);
            assert(kept.skip(1) =~= without_results(rest, stale));
            assert(kept[0] == event);
            lemma_answers_unfold(s, kept);
            lemma_stale_results_change_nothing(s.step(event).0, rest, stale, session);
        }
    }
}

/// There is one answer to each request.
pub proof fn lemma_answers_len(s: RegistryView, events: Seq<BatchEvent>)
    ensures
        s.answers(events).len() == events.len(),
    decreases events.len(),
{
    if events.len() > 0 {
        lemma_answers_len(s.step(events[0]).0, events.skip(1));
    }
}

/// Every session that is started is new: its number is at least the next
/// session number of the registry in which the requests began.
pub proof fn lemma_started_sessions_are_new(s: RegistryView, events: Seq<BatchEvent>, j: int)
    requires
        s.wf(),
        0 <= j < events.len(),
    ensures
        s.answers(events).len() == events.len(),
        s.answers(events)[j] matches BatchSignal::Started { session, .. } ==> session
            >= s.next_session,
    decreases events.len(),
{
    lemma_answers_len(s, events);
    lemma_answers_unfold(s, events);
    lemma_step_wf(s, events[0]);
    if j > 0 {
        let next = s.step(events[0]).0;
        lemma_started_sessions_are_new(next, events.skip(1), j - 1);
        assert(s.answers(events)[j] == s.answers(events).skip(1)[j - 1]);
    }
}

/// Session numbers strictly increase: of two batches that are started, the
/// later one has the larger session number.
pub proof fn lemma_sessions_strictly_increase(
    s: RegistryView,
    events: Seq<BatchEvent>,
    i: int,
    j: int,
)
    requires
        s.wf(),
        0 <= i < j < events.len(),
    ensures
        s.answers(events).len() == events.len(),
        (s.answers(events)[i] matches BatchSignal::Started { session: earlier, .. }
            && s.answers(events)[j] matches BatchSignal::Started { session: later, .. }) ==> {
            s.answers(events)[i]->Started_session < s.answers(events)[j]->Started_session
        },
    decreases events.len(),
{
    lemma_answers_len(s, events);
    lemma_answers_unfold(s, events);
    lemma_step_wf(s, events[0]);
    let next = s.step(events[0]).0;
    let rest = events.skip(1);
    assert(s.answers(events)[j] == s.answers(events).skip(1)[j - 1]);
    if i == 0 {
        lemma_started_sessions_are_new(next, rest, j - 1);
    } else {
        assert(s.answers(events)[i] == s.answers(events).skip(1)[i - 1]);
        lemma_sessions_strictly_increase(next, rest, i - 1, j - 1);
    }
}

/// A batch stops running in one of three ways only: its last result is
/// delivered (it is completed), a batch is started under its key (it is
/// superseded), or everything is cancelled (it is aborted).
pub proof fn lemma_how_a_batch_ends(s: RegistryView, event: BatchEvent, i: int)
    requires
        s.wf(),
        0 <= i < s.batches.len(),
        !s.step(event).0.is_running(s.batches[i].session),
    ensures
        ({
            let session = s.batches[i].session;
            let signal = s.step(event).1;
            ||| signal == (BatchSignal::DeliverLast { session })
            ||| (signal matches BatchSignal::Started { superseded, .. } && superseded == Some(
                session,
            ))
            ||| (signal matches BatchSignal::Cancelled { sessions } && sessions.contains(session))
        }),
{
    let b = s.batches[i];
    let next = s.step(event).0;
    match event {
        BatchEvent::Start { key, total } => {
            lemma_lookup(s.batches, key);
            if s.next_session >= u64::MAX {
                assert(next.batches[i].session == b.session);
            } else {
                match lookup(s.batches, key) {
                    Some(j) => {
                        if j != i {
                            let i1 = if j < i {
                                i - 1
                            } else {
                                i
                            };
                            assert(next.batches[i1] == b);
                        }
                    },
                    None => {
                        assert(next.batches[i] == b);
                    },
                }
            }
        },
        BatchEvent::Result { key, session } => {
            lemma_lookup(s.batches, key);
            match lookup(s.batches, key) {
                Some(j) => {
                    if j != i {
                        let i1 = if next.batches.len() < s.batches.len() && j < i {
                            i - 1
                        } else {
                            i
                        };
                        assert(next.batches[i1] == b);
                    } else if next.batches.len() == s.batches.len() {
                        assert(next.batches[i].session == b.session);
                    }
                },
                None => {
                    assert(next.batches[i] == b);
                },
            }
        },
        BatchEvent::Cancel => {
            assert(sessions_of(s.batches)[i] == b.session);
        },
    }
}

/// One running batch.
#[derive(Debug, Clone, PartialEq, Eq)]
pub struct Batch {
    pub key: String,
    pub session: u64,
    pub total: usize,
    pub delivered: usize,
}

impl View for Batch {
    type V = BatchView;

    open spec fn view(&self) -> BatchView {
        BatchView {
            key: self.key@,
            session: self.session as nat,
            total: self.total as nat,
            delivered: self.delivered as nat,
        }
    }
}

/// What `views_of` makes of a list of batches: each batch as the registry
/// knows it.
pub open spec fn views_of(batches: Seq<Batch>) -> Seq<BatchView> {
    Seq::new(batches.len(), |i: int| batches[i]@)
}

/// The answer to the start of a batch.
#[derive(Debug, Clone, Copy, PartialEq, Eq)]
pub struct Started {
    /// The session of the new batch.
    pub session: u64,
    /// The session that ran under the same key and is to be aborted.
    pub superseded: Option<u64>,
    /// The batch has no probes: signal its completion at once.
    pub complete: bool,
}

/// What is to be done with a result.
#[derive(Debug, Clone, Copy, PartialEq, Eq)]
pub enum Delivery {
    /// Drop it: its batch does not run any more.
    Discard,
    /// Deliver it.
    Deliver,
    /// Deliver it, then signal that the batch is complete.
    DeliverLast,
}

/// The signal that an answer to a start stands for.
pub open spec fn started_signal(answer: Option<Started>) -> BatchSignal {
    match answer {
        Some(a) => BatchSignal::Started {
            session: a.session as nat,
            superseded: match a.superseded {
                Some(s) => Some(s as nat),
                None => None,
            },
            complete: a.complete,
        },
        None => BatchSignal::Refused,
    }
}

/// The signal that a decision on a result of `session` stands for.
pub open spec fn delivery_signal(delivery: Delivery, session: u64) -> BatchSignal {
    match delivery {
        Delivery::Discard => BatchSignal::Discard,
        Delivery::Deliver => BatchSignal::Deliver { session: session as nat },
        Delivery::DeliverLast => BatchSignal::DeliverLast { session: session as nat },
    }
}

/// The sessions in `sessions` as numbers.
pub open spec fn session_numbers(sessions: Seq<u64>) -> Seq<nat> {
    Seq::new(sessions.len(), |i: int| sessions[i] as nat)
}

/// The running batches by key, and the counter that mints session numbers.
pub struct BatchRegistry {
    next_session: u64,
    batches: Vec<Batch>,
}

impl View for BatchRegistry {
    type V = RegistryView;

    closed spec fn view(&self) -> RegistryView {
        RegistryView {
            next_session: self.next_session as nat,
            batches: views_of(self.batches@),
        }
    }
}

impl BatchRegistry {
    #[verifier::type_invariant]
    spec fn well_formed(&self) -> bool {
        self@.wf()
    }

    /// A registry in which nothing runs. The first session will be 1.
    pub fn new() -> (registry: BatchRegistry)
        ensures
            registry@ == (RegistryView { next_session: 1, batches: Seq::empty() }),
            registry@.wf(),
    {
        let registry = BatchRegistry { next_session: 1, batches: Vec::new() };
        assert(registry@.batches =~= Seq::empty());
        registry
    }

    /// Where the batch under `key` stands.
    fn find(&self, key: &str) -> (found: Option<usize>)
        ensures
            match found {
                Some(i) => i < self.batches@.len() && lookup(self@.batches, key@) == Some(i as int),
                None => lookup(self@.batches, key@) is None,
            },
    {
        let wanted = String::from_str(key);
        let ghost views = self@.batches;
        let mut i: usize = 0;
        while i < self.batches.len()
            invariant
                i <= self.batches@.len(),
                views == views_of(self.batches@),
                wanted@ == key@,
                forall|j: int| 0 <= j < i ==> (#[trigger] views[j]).key != key@,
            decreases self.batches@.len() - i,
        {
            if self.batches[i].key == wanted {
                proof {
                    assert(views[i as int].key == key@);
                    lemma_first_match(views, key@, i as int);
                }
                return Some(i);
            }
            assert(views[i as int].key != key@);
            i += 1;
        }
        proof {
            lemma_lookup(views, key@);
        }
        None
    }

    /// Starts a batch of `total` probes under `key`. The batch that ran under
    /// `key` is superseded. `None` where no session number is left.
    pub fn start_batch(&mut self, key: &str, total: usize) -> (answer: Option<Started>)
        ensures
            (final(self)@, started_signal(answer)) == old(self)@.start(key@, total as nat),
            final(self)@.wf(),
    {
        proof {
            use_type_invariant(&*self);
            lemma_step_wf(self@, BatchEvent::Start { key: key@, total: total as nat });
        }
        if self.next_session == u64::MAX {
            return None;
        }
        let ghost before = self@;
        let session = self.next_session;
        let found = self.find(key);
        let mut batches: Vec<Batch> = Vec::new();
        std::mem::swap(&mut self.batches, &mut batches);
        proof {
            assert(views_of(self.batches@) =~= Seq::empty());
        }
        let superseded = match found {
            Some(i) => {
                let old_batch = batches.remove(i);
                Some(old_batch.session)
            },
            None => None,
        };
        if total > 0 {
            batches.push(Batch { key: String::from_str(key), session, total, delivered: 0 });
        }
        proof {
            assert(views_of(batches@) =~= before.start(key@, total as nat).0.batches);
        }
        self.next_session = session + 1;
        self.batches = batches;
        Some(Started { session, superseded, complete: total == 0 })
    }

    /// Decides what is to be done with a result of a probe that was started
    /// under `key` in `session`.
    pub fn record_result(&mut self, key: &str, session: u64) -> (delivery: Delivery)
        ensures
            (final(self)@, delivery_signal(delivery, session)) == old(self)@.record(
                key@,
                session as nat,
            ),
            final(self)@.wf(),
    {
        proof {
            use_type_invariant(&*self);
            lemma_step_wf(self@, BatchEvent::Result { key: key@, session: session as nat });
        }
        let ghost before = self@;
        let i = match self.find(key) {
            Some(i) => i,
            None => {
                return Delivery::Discard;
            },
        };
        if self.batches[i].session != session {
            return Delivery::Discard;
        }
        let total = self.batches[i].total;
        let delivered = self.batches[i].delivered;
        assert(before.batches[i as int] == self.batches@[i as int]@);
        let mut batches: Vec<Batch> = Vec::new();
        std::mem::swap(&mut self.batches, &mut batches);
        proof {
            assert(views_of(self.batches@) =~= Seq::empty());
        }
        let current = batches.remove(i);
        let delivery = if delivered + 1 >= total {
            Delivery::DeliverLast
        } else {
            batches.insert(i, Batch { delivered: delivered + 1, ..current });
            Delivery::Deliver
        };
        proof {
            assert(views_of(batches@) =~= before.record(key@, session as nat).0.batches);
        }
        self.batches = batches;
        delivery
    }

    /// Aborts everything that runs: the sessions that were running, in the
    /// order in which they were started.
    pub fn abort_all(&mut self) -> (sessions: Vec<u64>)
        ensures
            (final(self)@, BatchSignal::Cancelled { sessions: session_numbers(sessions@) }) == old(
                self,
            )@.cancel(),
            final(self)@.wf(),
    {
        proof {
            use_type_invariant(&*self);
            lemma_step_wf(self@, BatchEvent::Cancel);
        }
        let ghost before = self@;
        let mut batches: Vec<Batch> = Vec::new();
        std::mem::swap(&mut self.batches, &mut batches);
        proof {
            assert(views_of(self.batches@) =~= Seq::empty());
        }
        let mut sessions: Vec<u64> = Vec::new();
        let mut i: usize = 0;
        while i < batches.len()
            invariant
                i <= batches@.len(),
                sessions@.len() == i,
                forall|j: int| 0 <= j < i ==> sessions@[j] == (#[trigger] batches@[j]).session,
            decreases batches@.len() - i,
        {
            sessions.push(batches[i].session);
            i += 1;
        }
        proof {
            assert(session_numbers(sessions@) =~= sessions_of(before.batches));
        }
        sessions
    }

    /// How many batches run.
    pub fn running(&self) -> (count: usize)
        ensures
            count == self@.batches.len(),
            self@.wf(),
    {
        proof {
            use_type_invariant(self);
        }
        self.batches.len()
    }
}

/// Whether any batch runs.
pub fn has_active_tasks(registry: &BatchRegistry) -> (active: bool)
    ensures
        active == (registry@.batches.len() > 0),
{
    registry.running() > 0
}

/// How many batches run.
pub fn get_active_task_count(registry: &BatchRegistry) -> (count: usize)
    ensures
        count == registry@.batches.len(),
{
    registry.running()
}

/// Cancels every running batch. The sessions it names are to be aborted;
/// whatever their probes still report is dropped.
pub fn abort_all_tasks(registry: &mut BatchRegistry) -> (sessions: Vec<u64>)
    ensures
        (final(registry)@, BatchSignal::Cancelled { sessions: session_numbers(sessions@) }) == old(
            registry,
        )@.cancel(),
        final(registry)@.wf(),
{
    registry.abort_all()
}

/// Why a request started no batch.
#[derive(Debug, Clone, Copy, PartialEq, Eq)]
pub enum CommandError {
    /// The domain is empty.
    EmptyDomain,
    /// The address is empty.
    EmptyUrl,
    /// The address begins with neither `http://` nor `https://`.
    MissingScheme,
    /// The image reference is empty.
    EmptyImageName,
    /// The image reference does not have the shape of one.
    InvalidImageName,
    /// No session number is left.
    NoSession,
}

impl CommandError {
    /// The text of this error.
    pub open spec fn text(self) -> Seq<char> {
        match self {
            CommandError::EmptyDomain => "Please enter a valid domain name"@,
            CommandError::EmptyUrl => "Please enter a valid URL"@,
            CommandError::MissingScheme => "URL must start with http:// or https://"@,
            CommandError::EmptyImageName => "Please enter a valid Docker image name"@,
            CommandError::InvalidImageName => "Invalid Docker image name format"@,
            CommandError::NoSession => "No session number is left"@,
        }
    }

    /// The text of this error.
    pub fn message(&self) -> (m: String)
        ensures
            m@ == self.text(),
    {
        match self {
            CommandError::EmptyDomain => String::from_str("Please enter a valid domain name"),
            CommandError::EmptyUrl => String::from_str("Please enter a valid URL"),
            CommandError::MissingScheme => String::from_str(
                "URL must start with http:// or https://",
            ),
            CommandError::EmptyImageName => String::from_str(
                "Please enter a valid Docker image name",
            ),
            CommandError::InvalidImageName => String::from_str("Invalid Docker image name format"),
            CommandError::NoSession => String::from_str("No session number is left"),
        }
    }
}

/// A batch that was started: the probes to run, one per candidate, each under
/// `key` and the session of `started`.
#[derive(Debug, Clone, PartialEq, Eq)]
pub struct BatchPlan {
    /// The target without white space around it.
    pub key: String,
    pub started: Started,
    /// How many probes the batch has.
    pub total: usize,
}

/// `result` is what the start of a batch of `total` probes under `key` gives
/// in the registry `before`, and `after` is the registry then.
pub open spec fn enrolled(
    before: RegistryView,
    after: RegistryView,
    key: Seq<char>,
    total: nat,
    result: Result<BatchPlan, CommandError>,
) -> bool {
    &&& after == before.start(key, total).0
    &&& match result {
        Ok(plan) => {
            &&& plan.key@ == key
            &&& plan.total == total
            &&& started_signal(Some(plan.started)) == before.start(key, total).1
        },
        Err(e) => e == CommandError::NoSession && before.start(key, total).1
            == BatchSignal::Refused,
    }
}

/// `result` refuses the request with `error`, and the registry is unchanged.
pub open spec fn rejected(
    before: RegistryView,
    after: RegistryView,
    error: CommandError,
    result: Result<BatchPlan, CommandError>,
) -> bool {
    after == before && result == Err::<BatchPlan, CommandError>(error)
}

/// A request that started a batch (`result` is a plan), and the requests
/// `events` that follow it: the batch delivers at most `total` results and is
/// completed at most once, exactly when all are delivered. If it is neither
/// cancelled nor superseded and at least `total` of its probes report, exactly
/// `total` results are delivered and the batch is completed once, with the
/// last of them; a batch without probes is completed by its plan and delivers
/// nothing.
///
/// This holds of every request that [`test_dns_servers`],
/// [`test_download_speed_all_dns`] and [`test_docker_registries`] answer with
/// a plan: their contracts state `enrolled`.
pub proof fn lemma_enrolled_batch_delivers_all(
    before: RegistryView,
    after: RegistryView,
    key: Seq<char>,
    total: nat,
    result: Result<BatchPlan, CommandError>,
    events: Seq<BatchEvent>,
)
    requires
        before.wf(),
        enrolled(before, after, key, total, result),
        result is Ok,
    ensures
        after.wf(),
        ({
            let started = result->Ok_0.started;
            let session = started.session as nat;
            let signals = after.answers(events);
            &&& session == before.next_session
            &&& started.complete == (total == 0)
            &&& deliveries(signals, session) <= total
            &&& completions(signals, session) <= 1
            &&& total > 0 ==> (completions(signals, session) == 1 <==> deliveries(signals, session)
                == total)
            &&& total == 0 ==> completions(signals, session) == 0
            &&& undisturbed(events, key) && results_for(events, key, session) >= total ==> {
                &&& deliveries(signals, session) == total
                &&& total > 0 ==> completions(signals, session) == 1
            }
        }),
{
    let session = before.next_session;
    let first = BatchEvent::Start { key, total };
    let all = seq![first] + events;
    assert(all.skip(1) =~= events);
    assert(all[0] == first);
    assert(before.step(first).0 == after);
    lemma_step_wf(before, first);
    lemma_answers_unfold(before, all);
    lemma_batch_delivers_its_results(before, key, total, events);
    let signals = before.answers(all);
    assert(signals.skip(1) == after.answers(events));
    assert(!delivers(signals[0], session));
    assert(completes(signals[0], session) == (total == 0));
}

/// A request that started a batch under the key of a running one: the plan
/// names the old session as superseded, and afterwards no result of the old
/// session is delivered and it is never completed, whatever its probes still
/// report.
pub proof fn lemma_enrolled_batch_supersedes(
    before: RegistryView,
    after: RegistryView,
    key: Seq<char>,
    total: nat,
    result: Result<BatchPlan, CommandError>,
    events: Seq<BatchEvent>,
    i: int,
)
    requires
        before.wf(),
        enrolled(before, after, key, total, result),
        result is Ok,
        0 <= i < before.batches.len(),
        before.batches[i].key == key,
    ensures
        result->Ok_0.started.superseded matches Some(old_session) && old_session
            == before.batches[i].session,
        !after.is_running(before.batches[i].session),
        deliveries(after.answers(events), before.batches[i].session) == 0,
        completions(after.answers(events), before.batches[i].session) == 0,
{
    lemma_superseded_is_silent(before, key, total, events, i);
    lemma_lookup_unique(before, key, i);
    let old_session = before.batches[i].session;
    assert(!after.is_running(old_session)) by {
        assert forall|j: int| 0 <= j < after.batches.len() implies (
        #[trigger] after.batches[j]).session != old_session by {
            let kept = before.batches.remove(i);
            if j < kept.len() {
                let j0 = if j < i {
                    j
                } else {
                    j + 1
                };
                assert(kept[j] == before.batches[j0]);
            }
        }
    }
}

/// The start of a batch under one key leaves the batches under every other
/// key running as they were: such a batch is not superseded, and it goes on
/// to deliver what it still waits for, and to be completed, exactly as if the
/// start had not happened.
pub proof fn lemma_other_targets_keep_running(
    s: RegistryView,
    key: Seq<char>,
    total: nat,
    events: Seq<BatchEvent>,
    j: int,
)
    requires
        s.wf(),
        0 <= j < s.batches.len(),
        s.batches[j].key != key,
    ensures
        ({
            let b = s.batches[j];
            let left = b.total - b.delivered;
            let after = s.start(key, total).0;
            let signals = after.answers(events);
            &&& after.is_running(b.session)
            &&& !(s.start(key, total).1 matches BatchSignal::Started { superseded, .. }
                && superseded == Some(b.session))
            &&& exists|i: int| 0 <= i < after.batches.len() && after.batches[i] == b
            &&& deliveries(signals, b.session) <= left
            &&& completions(signals, b.session) <= 1
            &&& undisturbed(events, b.key) && results_for(events, b.key, b.session) >= left ==> {
                &&& deliveries(signals, b.session) == left
                &&& completions(signals, b.session) == 1
            }
        }),
{
    let b = s.batches[j];
    let first = BatchEvent::Start { key, total };
    let after = s.start(key, total).0;
    assert(s.step(first).0 == after);
    lemma_step_wf(s, first);
    lemma_lookup(s.batches, key);
    let j1 = if s.next_session >= u64::MAX {
        j
    } else {
        match lookup(s.batches, key) {
            Some(i) => if i < j {
                j - 1
            } else {
                j
            },
            None => j,
        }
    };
    assert(after.batches[j1] == b);
    match lookup(s.batches, key) {
        Some(i) => {
            assert(i != j);
            assert(s.batches[i].session != b.session);
        },
        None => {},
    }
    lemma_running_is_bounded(after, events, j1);
}

/// Starts the batch for `key` in `registry`.
fn enroll(registry: &mut BatchRegistry, key: String, total: usize) -> (result: Result<
    BatchPlan,
    CommandError,
>)
    ensures
        enrolled(old(registry)@, final(registry)@, key@, total as nat, result),
        final(registry)@.wf(),
{
    match registry.start_batch(key.as_str(), total) {
        Some(started) => Ok(BatchPlan { key, started, total }),
        None => Err(CommandError::NoSession),
    }
}

/// Starts the reachability batch for `domain`: one probe for each of
/// `candidates` resolvers, under the domain without white space around it. An
/// empty domain is refused and changes nothing.
pub fn test_dns_servers(registry: &mut BatchRegistry, domain: &str, candidates: usize) -> (result:
    Result<BatchPlan, CommandError>)
    ensures
        final(registry)@.wf(),
        if trimmed(domain@).len() == 0 {
            rejected(old(registry)@, final(registry)@, CommandError::EmptyDomain, result)
        } else {
            enrolled(
                old(registry)@,
                final(registry)@,
                trimmed(domain@),
                candidates as nat,
                result,
            )
        },
{
    let target = trim(domain);
    if target.as_str().is_empty() {
        let _ = registry.running();
        return Err(CommandError::EmptyDomain);
    }
    enroll(registry, target, candidates)
}

/// The address names `http` or `https` as its scheme.
pub open spec fn has_http_scheme(url: Seq<char>) -> bool {
    occurs_at(url, "http://"@, 0) || occurs_at(url, "https://"@, 0)
}

/// Starts the speed batch for `url`: one probe for each of `candidates`
/// resolvers, under the address without white space around it. An empty
/// address, and one that begins with neither `http://` nor `https://`, is
/// refused and changes nothing.
pub fn test_download_speed_all_dns(registry: &mut BatchRegistry, url: &str, candidates: usize) -> (result:
    Result<BatchPlan, CommandError>)
    ensures
        final(registry)@.wf(),
        if trimmed(url@).len() == 0 {
            rejected(old(registry)@, final(registry)@, CommandError::EmptyUrl, result)
        } else if !has_http_scheme(trimmed(url@)) {
            rejected(old(registry)@, final(registry)@, CommandError::MissingScheme, result)
        } else {
            enrolled(old(registry)@, final(registry)@, trimmed(url@), candidates as nat, result)
        },
{
    let target = trim(url);
    if target.as_str().is_empty() {
        let _ = registry.running();
        return Err(CommandError::EmptyUrl);
    }
    if !starts_with(target.as_str(), "http://") && !starts_with(target.as_str(), "https://") {
        let _ = registry.running();
        return Err(CommandError::MissingScheme);
    }
    enroll(registry, target, candidates)
}

/// `result` is what the request for a registry batch gives for the reference
/// `target`, where `accepted` says whether the reference is accepted: an
/// empty reference and one that is not accepted are refused and change
/// nothing; otherwise the batch starts under `target`.
pub open spec fn registry_batch_decision(
    before: RegistryView,
    after: RegistryView,
    target: Seq<char>,
    registries: nat,
    accepted: bool,
    result: Result<BatchPlan, CommandError>,
) -> bool {
    if target.len() == 0 {
        rejected(before, after, CommandError::EmptyImageName, result)
    } else if !accepted {
        rejected(before, after, CommandError::InvalidImageName, result)
    } else {
        enrolled(before, after, target, registries, result)
    }
}

/// Starts the registry batch for the reference `target`, of which `accepted`
/// says whether it is accepted.
pub fn start_registry_batch(
    registry: &mut BatchRegistry,
    target: String,
    registries: usize,
    accepted: bool,
) -> (result: Result<BatchPlan, CommandError>)
    ensures
        final(registry)@.wf(),
        registry_batch_decision(
            old(registry)@,
            final(registry)@,
            target@,
            registries as nat,
            accepted,
            result,
        ),
{
    if target.as_str().is_empty() {
        let _ = registry.running();
        return Err(CommandError::EmptyImageName);
    }
    if !accepted {
        let _ = registry.running();
        return Err(CommandError::InvalidImageName);
    }
    enroll(registry, target, registries)
}

/// Starts the registry batch for `image_name`: one probe for each of
/// `registries` mirrors, under the reference without white space around it.
/// An empty reference, and one that is not accepted, is refused and changes
/// nothing.
pub fn test_docker_registries(registry: &mut BatchRegistry, image_name: &str, registries: usize) -> (result:
    Result<BatchPlan, CommandError>)
    ensures
        final(registry)@.wf(),
        registry_batch_decision(
            old(registry)@,
            final(registry)@,
            trimmed(image_name@),
            registries as nat,
            image_name_accepted(
                regex_match(IMAGE_NAME_PATTERN@, trimmed(image_name@)),
                trimmed(image_name@),
            ),
            result,
        ),
{
    let target = trim(image_name);
    let accepted = validate_docker_image_name(target.as_str());
    start_registry_batch(registry, target, registries, accepted)
}

/// Whether `image_name` has the shape of an image reference. Never an error.
pub fn validate_docker_image(image_name: &str) -> (result: Result<bool, CommandError>)
    ensures
        result == Ok::<bool, CommandError>(
            image_name_accepted(regex_match(IMAGE_NAME_PATTERN@, image_name@), image_name@),
        ),
{
    Ok(validate_docker_image_name(image_name))
}

} // verus!
