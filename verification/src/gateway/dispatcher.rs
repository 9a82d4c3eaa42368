//! How the gateway routes each Discord event: straight to the worker over
//! HTTP, or through the queue, falling back to the queue for a minute after
//! the worker has answered 429.

use vstd::prelude::*;

verus! {

/// How long the gateway stays in fallback mode after a 429, in nanoseconds.
pub const FALLBACK_COOLDOWN_NANOS: u64 = 60_000_000_000;

/// The routing policy for a kind of event.
#[derive(Clone, Copy, Debug, PartialEq, Eq, Structural)]
pub enum DispatchStrategy {
    /// To the worker, or to the queue (with this delay) while rate limited.
    Smart { queue_delay: u64 },
    /// Always to the worker, whatever the rate limit.
    AlwaysWorker,
    /// Always to the queue, with this delay.
    AlwaysQueue { queue_delay: u64 },
    /// To the worker, and only while the gateway is in fallback mode.
    WorkerOnly,
}

/// Whether the flag set `flags` holds every flag of `other`.
pub open spec fn flags_contain(flags: u128, other: u128) -> bool {
    flags & other == other
}

/// The strategy of the first entry of `table` whose flags hold `kind`, or
/// `Smart` without delay where none does.
pub open spec fn spec_select_strategy(table: Seq<(u128, DispatchStrategy)>, kind: u128) -> DispatchStrategy
    decreases table.len(),
{
    if table.len() == 0 {
        DispatchStrategy::Smart { queue_delay: 0 }
    } else if flags_contain(table[0].0, kind) {
        table[0].1
    } else {
        spec_select_strategy(table.drop_first(), kind)
    }
}

/// Picks the strategy for an event of kind `kind` (its event-type flag).
pub fn select_strategy(table: &Vec<(u128, DispatchStrategy)>, kind: u128) -> (res: DispatchStrategy)
    ensures
        res == spec_select_strategy(table@, kind),
{
    let mut i: usize = 0;
    assert(table@.skip(0) =~= table@);
    while i < table.len()
        invariant
            i <= table@.len(),
            spec_select_strategy(table@, kind) == spec_select_strategy(table@.skip(i as int), kind),
        decreases table.len() - i,
    {
        assert(table@.skip(i as int).drop_first() =~= table@.skip(i + 1));
        assert(table@.skip(i as int)[0] == table@[i as int]);
        if table[i].0 & kind == kind {
            return table[i].1;
        }
        i = i + 1;
    }
    DispatchStrategy::Smart { queue_delay: 0 }
}

/// What the worker's answer to a forwarded event amounts to.
#[derive(Clone, Copy, Debug, PartialEq, Eq, Structural)]
pub enum WorkerOutcome {
    /// A 2xx status.
    Success,
    /// Status 429.
    RateLimited,
    /// Any other status, or no answer at all.
    Failed,
}

/// Classifies the worker's HTTP status (`None` where the request failed).
pub fn classify_worker_status(status: Option<u16>) -> (res: WorkerOutcome)
    ensures
        res == match status {
            Some(s) => if 200 <= s <= 299 {
                WorkerOutcome::Success
            } else if s == 429 {
                WorkerOutcome::RateLimited
            } else {
                WorkerOutcome::Failed
            },
            None => WorkerOutcome::Failed,
        },
{
    match status {
        Some(s) => if 200 <= s && s <= 299 {
            WorkerOutcome::Success
        } else if s == 429 {
            WorkerOutcome::RateLimited
        } else {
            WorkerOutcome::Failed
        },
        None => WorkerOutcome::Failed,
    }
}

/// What the gateway does next with an event.
#[derive(Clone, Copy, Debug, PartialEq, Eq, Structural)]
pub enum DispatchAction {
    /// Post the event to the worker. `fallback_delay` is the queue delay to
    /// use if the worker fails (for the smart strategy), or `None`.
    SendToWorker { fallback_delay: Option<u64> },
    /// Post the event to the queue with this delay.
    SendToQueue { delay: u64 },
    /// The event is delivered; nothing is left to do.
    Done,
    /// The event cannot be sent: the strategy is worker-only and the gateway
    /// is not in fallback mode.
    NotInFallbackMode,
}

/// The routing state of the gateway: whether it is in fallback mode, and
/// when (in nanoseconds of a monotonic clock) the worker last answered 429.
pub struct Dispatcher {
    pub in_fallback_mode: bool,
    pub last_429_time: Option<u64>,
}

/// Whether more than the cooldown has passed from `then` to `now` (a clock
/// that goes back counts as no time passing).
pub open spec fn cooldown_over(then: u64, now: u64) -> bool {
    now > then && now - then > FALLBACK_COOLDOWN_NANOS
}

/// The first step for an event under `strategy` at time `now`, from the
/// state `d`: the next state and the action.
///
/// A smart event in fallback mode goes to the queue until the cooldown is
/// over; then fallback mode ends and the event goes to the worker.
pub open spec fn route_step(d: Dispatcher, strategy: DispatchStrategy, now: u64) -> (Dispatcher, DispatchAction) {
    match strategy {
        DispatchStrategy::AlwaysQueue { queue_delay } => (d, DispatchAction::SendToQueue { delay: queue_delay }),
        DispatchStrategy::AlwaysWorker => (d, DispatchAction::SendToWorker { fallback_delay: None }),
        DispatchStrategy::WorkerOnly => if d.in_fallback_mode {
            (d, DispatchAction::SendToWorker { fallback_delay: None })
        } else {
            (d, DispatchAction::NotInFallbackMode)
        },
        DispatchStrategy::Smart { queue_delay } => if d.in_fallback_mode && d.last_429_time is Some {
            if cooldown_over(d.last_429_time->0, now) {
                (Dispatcher { in_fallback_mode: false, ..d }, DispatchAction::SendToWorker { fallback_delay: Some(queue_delay) })
            } else {
                (d, DispatchAction::SendToQueue { delay: queue_delay })
            }
        } else {
            (d, DispatchAction::SendToWorker { fallback_delay: Some(queue_delay) })
        },
    }
}

/// The step after the worker answered an event sent with `fallback_delay`,
/// at time `now`: a smart event that the worker did not take goes to the
/// queue, and a 429 starts fallback mode.
pub open spec fn after_worker_step(d: Dispatcher, fallback_delay: Option<u64>, outcome: WorkerOutcome, now: u64) -> (Dispatcher, DispatchAction) {
    match fallback_delay {
        None => (d, DispatchAction::Done),
        Some(delay) => match outcome {
            WorkerOutcome::Success => (d, DispatchAction::Done),
            WorkerOutcome::RateLimited => (
                Dispatcher { in_fallback_mode: true, last_429_time: Some(now) },
                DispatchAction::SendToQueue { delay },
            ),
            WorkerOutcome::Failed => (d, DispatchAction::SendToQueue { delay }),
        },
    }
}

impl Dispatcher {
    /// A dispatcher out of fallback mode, that has seen no 429.
    pub fn new() -> (res: Self)
        ensures
            !res.in_fallback_mode,
            res.last_429_time is None,
    {
        Dispatcher { in_fallback_mode: false, last_429_time: None }
    }

    /// Enters fallback mode at time `now`.
    fn trigger_fallback(&mut self, now: u64)
        ensures
            final(self).in_fallback_mode,
            final(self).last_429_time == Some(now),
    {
        self.in_fallback_mode = true;
        self.last_429_time = Some(now);
    }

    /// The first step for an event under `strategy` at time `now` (see `route_step`).
    pub fn route(&mut self, strategy: DispatchStrategy, now: u64) -> (res: DispatchAction)
        ensures
            (*final(self), res) == route_step(*old(self), strategy, now),
    {
        match strategy {
            DispatchStrategy::AlwaysQueue { queue_delay } => DispatchAction::SendToQueue { delay: queue_delay },
            DispatchStrategy::AlwaysWorker => DispatchAction::SendToWorker { fallback_delay: None },
            DispatchStrategy::WorkerOnly => {
                if !self.in_fallback_mode {
                    DispatchAction::NotInFallbackMode
                } else {
                    DispatchAction::SendToWorker { fallback_delay: None }
                }
            },
            DispatchStrategy::Smart { queue_delay } => {
                if self.in_fallback_mode {
                    if let Some(time) = self.last_429_time {
                        if now > time && now - time > FALLBACK_COOLDOWN_NANOS {
                            self.in_fallback_mode = false;
                        } else {
                            return DispatchAction::SendToQueue { delay: queue_delay };
                        }
                    }
                }
                DispatchAction::SendToWorker { fallback_delay: Some(queue_delay) }
            },
        }
    }

    /// The step after the worker answered (see `after_worker_step`).
    pub fn after_worker(&mut self, fallback_delay: Option<u64>, outcome: WorkerOutcome, now: u64) -> (res: DispatchAction)
        ensures
            (*final(self), res) == after_worker_step(*old(self), fallback_delay, outcome, now),
    {
        match fallback_delay {
            None => DispatchAction::Done,
            Some(delay) => match outcome {
                WorkerOutcome::Success => DispatchAction::Done,
                WorkerOutcome::RateLimited => {
                    self.trigger_fallback(now);
                    DispatchAction::SendToQueue { delay }
                },
                WorkerOutcome::Failed => DispatchAction::SendToQueue { delay },
            },
        }
    }
}

/// Once the worker has answered 429 at time `t`, a smart event goes to the
/// queue while no more than the cooldown has passed, and after it goes to the
/// worker and ends fallback mode.
pub proof fn lemma_rate_limit_cooldown(d: Dispatcher, fallback_delay: u64, t: u64, queue_delay: u64, now: u64)
    ensures
        ({
            let limited = after_worker_step(d, Some(fallback_delay), WorkerOutcome::RateLimited, t).0;
            let (next, action) = route_step(limited, DispatchStrategy::Smart { queue_delay }, now);
            &&& now <= t + FALLBACK_COOLDOWN_NANOS ==> action == DispatchAction::SendToQueue { delay: queue_delay }
                && next == limited
            &&& now > t + FALLBACK_COOLDOWN_NANOS ==> action == DispatchAction::SendToWorker { fallback_delay: Some(queue_delay) }
                && !next.in_fallback_mode
        }),
{
}

/// A worker-only event is refused exactly when the gateway is not in
/// fallback mode, and routing it changes nothing.
pub proof fn lemma_worker_only_needs_fallback(d: Dispatcher, now: u64)
    ensures
        route_step(d, DispatchStrategy::WorkerOnly, now).0 == d,
        (route_step(d, DispatchStrategy::WorkerOnly, now).1 == DispatchAction::NotInFallbackMode) <==> !d.in_fallback_mode,
{
}

/// The fixed strategies neither look at nor change the routing state.
pub proof fn lemma_fixed_strategies_keep_state(d: Dispatcher, e: Dispatcher, queue_delay: u64, now: u64, later: u64)
    ensures
        route_step(d, DispatchStrategy::AlwaysWorker, now) == (d, route_step(e, DispatchStrategy::AlwaysWorker, later).1),
        route_step(d, DispatchStrategy::AlwaysQueue { queue_delay }, now)
            == (d, route_step(e, DispatchStrategy::AlwaysQueue { queue_delay }, later).1),
{
}

} // verus!
