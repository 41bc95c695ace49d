//! The time-bounded download that both speed probes share.
//!
//! A download is driven from outside: the caller sends the request, reads the
//! body piece by piece and reports each thing that happened as a
//! [`TransferEvent`], together with the time that had passed on the probe's
//! clock when it saw the event. [`advance`] decides what the download has
//! become. Nothing here touches the network or a clock.

use vstd::prelude::*;

verus! {

/// Nanoseconds in one second.
pub const NANOS_PER_SECOND: u128 = 1_000_000_000;

/// Nanoseconds in one millisecond.
pub const NANOS_PER_MILLI: u128 = 1_000_000;

/// The time budget of `seconds` seconds, in nanoseconds.
pub open spec fn budget_nanos(seconds: u64) -> nat {
    (seconds * 1_000_000_000) as nat
}

/// The time budget of `seconds` seconds, in nanoseconds.
pub fn budget_of(seconds: u64) -> (budget: u128)
    ensures
        budget == budget_nanos(seconds),
{
    let s: u128 = seconds as u128;
    s * NANOS_PER_SECOND
}

/// What is left of `budget` once `elapsed` has passed: nothing when the budget
/// is used up or overrun.
pub open spec fn remaining(budget: nat, elapsed: nat) -> Option<nat> {
    if elapsed >= budget {
        None
    } else {
        Some((budget - elapsed) as nat)
    }
}

/// What is left of `budget_nanos` after `elapsed_nanos`, or `None` when
/// nothing is left.
pub fn remaining_budget(budget_nanos: u128, elapsed_nanos: u128) -> (left: Option<u128>)
    ensures
        left is Some == (elapsed_nanos < budget_nanos),
        left matches Some(n) ==> n == budget_nanos - elapsed_nanos && n > 0,
        match left {
            Some(n) => remaining(budget_nanos as nat, elapsed_nanos as nat) == Some(n as nat),
            None => remaining(budget_nanos as nat, elapsed_nanos as nat) is None,
        },
{
    if elapsed_nanos >= budget_nanos {
        None
    } else {
        Some(budget_nanos - elapsed_nanos)
    }
}

/// Whole milliseconds in `nanos`, held at `u64::MAX` where they do not fit.
pub open spec fn millis(nanos: nat) -> nat {
    if nanos / 1_000_000 > u64::MAX {
        u64::MAX as nat
    } else {
        nanos / 1_000_000
    }
}

/// Whole milliseconds in `nanos`, held at `u64::MAX` where they do not fit.
pub fn millis_of(nanos: u128) -> (ms: u64)
    ensures
        ms == millis(nanos as nat),
{
    let whole: u128 = nanos / NANOS_PER_MILLI;
    if whole > u64::MAX as u128 {
        u64::MAX
    } else {
        whole as u64
    }
}

/// Throughput in bits per second, rounded down: `bytes * 8` bits over
/// `elapsed_nanos` nanoseconds. Zero when no time has passed.
pub open spec fn bits_per_second(bytes: nat, elapsed_nanos: nat) -> nat {
    if elapsed_nanos == 0 {
        0
    } else {
        bytes * 8 * 1_000_000_000 / elapsed_nanos
    }
}

/// Throughput in bits per second for `bytes` bytes moved in `elapsed_nanos`.
/// A megabit per second is 1_000_000 of these.
pub fn speed_bits_per_second(bytes: u64, elapsed_nanos: u128) -> (speed: u128)
    ensures
        speed == bits_per_second(bytes as nat, elapsed_nanos as nat),
{
    if elapsed_nanos == 0 {
        return 0;
    }
    let b: u128 = bytes as u128;
    assert(b * 8 * 1_000_000_000 <= 0xffff_ffff_ffff_ffff * 8 * 1_000_000_000) by (nonlinear_arith)
        requires
            b <= 0xffff_ffff_ffff_ffff,
    ;
    let bits: u128 = b * 8 * NANOS_PER_SECOND;
    bits / elapsed_nanos
}

/// One thing that happened to a download.
#[derive(Debug, Clone, PartialEq, Eq)]
pub enum TransferEvent {
    /// The server answered the request with this status code.
    Response { status: u16 },
    /// The request did not get an answer.
    ConnectFailed { reason: String },
    /// A piece of the body arrived.
    Chunk { len: u64 },
    /// The body ended.
    End,
    /// Reading the body failed.
    ReadFailed { reason: String },
}

/// Why a download produced no measurement.
#[derive(Debug, Clone, PartialEq, Eq)]
pub enum TransferError {
    /// The server answered with a status other than 200.
    Status(u16),
    /// The request did not get an answer.
    Connect(String),
    /// Reading the body failed before any byte arrived.
    Read(String),
}

/// Which answers let the body be read.
#[derive(Debug, Clone, Copy, PartialEq, Eq, Structural)]
pub enum StatusPolicy {
    /// Any status code.
    Any,
    /// Status 200 only.
    OkOnly,
}

/// Where a download stands.
#[derive(Debug, Clone, PartialEq, Eq)]
pub enum Transfer {
    /// The request is out, no answer yet.
    Connecting,
    /// The body is being read; `bytes` have arrived.
    Reading { bytes: u64 },
    /// The download is over and `bytes` were measured.
    Finished { bytes: u64 },
    /// The download is over without a measurement.
    Failed(TransferError),
}

/// `a + b`, held at `u64::MAX`.
pub open spec fn saturating_sum(a: nat, b: nat) -> nat {
    if a + b > u64::MAX {
        u64::MAX as nat
    } else {
        a + b
    }
}

impl Transfer {
    /// The download is over.
    pub open spec fn is_over(self) -> bool {
        self is Finished || self is Failed
    }

    /// The bytes counted so far; none for a download that failed or has not
    /// begun to read.
    pub open spec fn measured(self) -> nat {
        match self {
            Transfer::Reading { bytes } => bytes as nat,
            Transfer::Finished { bytes } => bytes as nat,
            _ => 0,
        }
    }

    /// The bytes counted so far.
    pub fn bytes(&self) -> (n: u64)
        ensures
            n == self.measured(),
    {
        match self {
            Transfer::Reading { bytes } => *bytes,
            Transfer::Finished { bytes } => *bytes,
            _ => 0,
        }
    }

    /// Whether the caller has nothing more to do for this download.
    pub fn over(&self) -> (b: bool)
        ensures
            b == self.is_over(),
    {
        match self {
            Transfer::Finished { .. } => true,
            Transfer::Failed(_) => true,
            _ => false,
        }
    }
}

/// What the download `state` becomes when `event` is reported at
/// `elapsed` nanoseconds on the probe's clock, under a budget of `budget`.
///
/// * A download that is over stays as it is.
/// * While connecting, an answer starts the reading at zero bytes (under
///   `OkOnly` only a 200 does, any other status fails the download), and a
///   failed request fails it.
/// * While reading, the budget is looked at first: once `elapsed` has reached
///   it the download finishes with what it has, whatever the event, so only
///   bytes seen before the budget ran out are counted. Otherwise a chunk is
///   added, the end finishes the download, and a read failure finishes it if
///   bytes have arrived and fails it if none have.
/// * An event that does not belong to the state changes nothing.
pub open spec fn advance(
    state: Transfer,
    event: TransferEvent,
    elapsed: nat,
    budget: nat,
    policy: StatusPolicy,
) -> Transfer {
    match state {
        Transfer::Connecting => match event {
            TransferEvent::Response { status } => if policy == StatusPolicy::OkOnly && status
                != 200 {
                Transfer::Failed(TransferError::Status(status))
            } else {
                Transfer::Reading { bytes: 0 }
            },
            TransferEvent::ConnectFailed { reason } => Transfer::Failed(
                TransferError::Connect(reason),
            ),
            _ => state,
        },
        Transfer::Reading { bytes } => if elapsed >= budget {
            Transfer::Finished { bytes }
        } else {
            match event {
                TransferEvent::Chunk { len } => Transfer::Reading {
                    bytes: saturating_sum(bytes as nat, len as nat) as u64,
                },
                TransferEvent::End => Transfer::Finished { bytes },
                TransferEvent::ReadFailed { reason } => if bytes > 0 {
                    Transfer::Finished { bytes }
                } else {
                    Transfer::Failed(TransferError::Read(reason))
                },
                _ => state,
            }
        },
        _ => state,
    }
}

/// Whether a download that is reading should wait for another event: only
/// while the budget is not used up.
pub fn within_budget(elapsed_nanos: u128, budget_nanos: u128) -> (go: bool)
    ensures
        go == (elapsed_nanos < budget_nanos),
{
    elapsed_nanos < budget_nanos
}

/// Moves the download `state` on by one `event`, reported at `elapsed_nanos`.
pub fn step(
    state: Transfer,
    event: TransferEvent,
    elapsed_nanos: u128,
    budget_nanos: u128,
    policy: StatusPolicy,
) -> (next: Transfer)
    ensures
        next == advance(state, event, elapsed_nanos as nat, budget_nanos as nat, policy),
{
    match state {
        Transfer::Connecting => match event {
            TransferEvent::Response { status } => {
                if policy == StatusPolicy::OkOnly && status != 200 {
                    Transfer::Failed(TransferError::Status(status))
                } else {
                    Transfer::Reading { bytes: 0 }
                }
            },
            TransferEvent::ConnectFailed { reason } => Transfer::Failed(
                TransferError::Connect(reason),
            ),
            _ => Transfer::Connecting,
        },
        Transfer::Reading { bytes } => {
            if elapsed_nanos >= budget_nanos {
                Transfer::Finished { bytes }
            } else {
                match event {
                    TransferEvent::Chunk { len } => Transfer::Reading {
                        bytes: bytes.saturating_add(len),
                    },
                    TransferEvent::End => Transfer::Finished { bytes },
                    TransferEvent::ReadFailed { reason } => {
                        if bytes > 0 {
                            Transfer::Finished { bytes }
                        } else {
                            Transfer::Failed(TransferError::Read(reason))
                        }
                    },
                    _ => Transfer::Reading { bytes },
                }
            }
        },
        Transfer::Finished { bytes } => Transfer::Finished { bytes },
        Transfer::Failed(e) => Transfer::Failed(e),
    }
}

/// An event with the time at which the caller saw it.
#[derive(Debug, Clone, PartialEq, Eq)]
pub struct Sample {
    /// Nanoseconds on the probe's clock.
    pub at_nanos: u128,
    /// What then happened.
    pub event: TransferEvent,
}

/// The download after the events of `samples`, in order, starting from
/// `state`.
pub open spec fn run(state: Transfer, samples: Seq<Sample>, budget: nat, policy: StatusPolicy)
    -> Transfer
    decreases samples.len(),
{
    if samples.len() == 0 {
        state
    } else {
        run(
            advance(state, samples[0].event, samples[0].at_nanos as nat, budget, policy),
            samples.skip(1),
            budget,
            policy,
        )
    }
}

/// Replays a recorded download: the state after all of `samples`.
pub fn replay(samples: Vec<Sample>, budget_nanos: u128, policy: StatusPolicy) -> (end: Transfer)
    ensures
        end == run(Transfer::Connecting, samples@, budget_nanos as nat, policy),
{
    let mut state = Transfer::Connecting;
    let ghost all = samples@;
    proof {
        assert(all.skip(0) =~= all);
    }
    for sample in it: samples
        invariant
            it.seq() == all,
            run(state, all.skip(it.index() as int), budget_nanos as nat, policy) == run(
                Transfer::Connecting,
                all,
                budget_nanos as nat,
                policy,
            ),
    {
        proof {
            let tail = all.skip(it.index() as int);
            assert(sample == tail[0]);
            assert(tail.skip(1) =~= all.skip(it.index() + 1));
        }
        state = step(state, sample.event, sample.at_nanos, budget_nanos, policy);
    }
    state
}

/// A step never lowers the count of a download; so a download that has
/// bytes never becomes a failure.
pub proof fn lemma_advance_keeps_bytes(
    state: Transfer,
    event: TransferEvent,
    elapsed: nat,
    budget: nat,
    policy: StatusPolicy,
)
    ensures
        state.measured() <= advance(state, event, elapsed, budget, policy).measured(),
{
}

/// No run of events lowers the count of a download.
pub proof fn lemma_run_keeps_bytes(
    state: Transfer,
    samples: Seq<Sample>,
    budget: nat,
    policy: StatusPolicy,
)
    ensures
        state.measured() <= run(state, samples, budget, policy).measured(),
    decreases samples.len(),
{
    if samples.len() > 0 {
        let next = advance(state, samples[0].event, samples[0].at_nanos as nat, budget, policy);
        lemma_advance_keeps_bytes(state, samples[0].event, samples[0].at_nanos as nat, budget, policy);
        lemma_run_keeps_bytes(next, samples.skip(1), budget, policy);
    }
}

/// A download that is over is not changed by further events.
pub proof fn lemma_run_over(state: Transfer, samples: Seq<Sample>, budget: nat, policy: StatusPolicy)
    requires
        state.is_over(),
    ensures
        run(state, samples, budget, policy) == state,
    decreases samples.len(),
{
    if samples.len() > 0 {
        lemma_run_over(state, samples.skip(1), budget, policy);
    }
}

/// `low` is the same download as `high` seen under a smaller budget: either
/// both are in the same state, or `low` has already finished with no more
/// bytes than `high` holds.
spec fn not_ahead(low: Transfer, high: Transfer) -> bool {
    low == high || (low is Finished && low.measured() <= high.measured())
}

proof fn lemma_run_monotonic_from(
    low: Transfer,
    high: Transfer,
    samples: Seq<Sample>,
    small: nat,
    large: nat,
    policy: StatusPolicy,
)
    requires
        small <= large,
        not_ahead(low, high),
    ensures
        run(low, samples, small, policy).measured() <= run(high, samples, large, policy).measured(),
    decreases samples.len(),
{
    if samples.len() > 0 {
        let e = samples[0].event;
        let at = samples[0].at_nanos as nat;
        let low1 = advance(low, e, at, small, policy);
        let high1 = advance(high, e, at, large, policy);
        if low is Finished {
            lemma_run_over(low, samples, small, policy);
            lemma_run_keeps_bytes(high, samples, large, policy);
        } else {
            assert(not_ahead(low1, high1));
            lemma_run_monotonic_from(low1, high1, samples.skip(1), small, large, policy);
        }
    }
}

/// A larger time budget never lowers what a download measures: for one and
/// the same course of events, the bytes counted under the budget `large` are
/// at least those counted under `small`.
pub proof fn lemma_budget_monotonic(
    samples: Seq<Sample>,
    small: nat,
    large: nat,
    policy: StatusPolicy,
)
    requires
        small <= large,
    ensures
        run(Transfer::Connecting, samples, small, policy).measured() <= run(
            Transfer::Connecting,
            samples,
            large,
            policy,
        ).measured(),
{
    lemma_run_monotonic_from(
        Transfer::Connecting,
        Transfer::Connecting,
        samples,
        small,
        large,
        policy,
    );
}

/// Doubling the time budget never lowers what a download measures.
pub proof fn lemma_doubled_budget(samples: Seq<Sample>, budget: nat, policy: StatusPolicy)
    ensures
        run(Transfer::Connecting, samples, budget, policy).measured() <= run(
            Transfer::Connecting,
            samples,
            2 * budget,
            policy,
        ).measured(),
{
    lemma_budget_monotonic(samples, budget, 2 * budget, policy);
}

} // verus!
