//! Scheduled triggers: each runs on the cron expressions it lists, when its
//! own condition holds.

use vstd::prelude::*;


verus! {

/// The cron expressions a trigger runs on.
pub enum CronSchedule {
    /// Every cron expression.
    All,
    Single(String),
    Multiple(Vec<String>),
}

impl CronSchedule {
    /// The default schedule: every cron expression.
    pub fn default_schedule() -> (res: Self)
        ensures
            res is All,
    {
        CronSchedule::All
    }
}

/// Whether a trigger with `schedule` runs for the cron expression `current`.
pub open spec fn spec_cron_matches(schedule: CronSchedule, current: Seq<char>) -> bool {
    match schedule {
        CronSchedule::All => true,
        CronSchedule::Single(p) => p@ == current,
        CronSchedule::Multiple(ps) => exists|i: int| 0 <= i < ps@.len() && ps@[i]@ == current,
    }
}

/// Whether `items` holds a string equal to `s`.
pub fn contains_string(items: &Vec<String>, s: &String) -> (res: bool)
    ensures
        res == exists|i: int| 0 <= i < items@.len() && items@[i]@ == s@,
{
    let mut i: usize = 0;
    while i < items.len()
        invariant
            i <= items@.len(),
            forall|j: int| 0 <= j < i ==> items@[j]@ != s@,
        decreases items@.len() - i,
    {
        if items[i] == *s {
            return true;
        }
        i = i + 1;
    }
    false
}

/// Whether a trigger with `schedule` runs for the cron expression `current`.
pub fn cron_matches(schedule: &CronSchedule, current: &String) -> (res: bool)
    ensures
        res == spec_cron_matches(*schedule, current@),
{
    match schedule {
        CronSchedule::All => true,
        CronSchedule::Single(p) => *p == *current,
        CronSchedule::Multiple(ps) => contains_string(ps, current),
    }
}

/// What the scheduler does with a trigger, given what its condition check
/// said (`None` where the check failed).
#[derive(Clone, Copy, Debug, PartialEq, Eq, Structural)]
pub enum TriggerDecision {
    Execute,
    Skip,
    /// The check failed; the trigger is skipped and the error reported.
    SkipOnError,
}

/// Whether the scheduler runs a trigger: only on a matching cron expression,
/// and only where its own condition then holds.
pub fn decide_trigger(cron_ok: bool, condition: Option<bool>) -> (res: TriggerDecision)
    ensures
        res == if !cron_ok {
            TriggerDecision::Skip
        } else {
            match condition {
                Some(true) => TriggerDecision::Execute,
                Some(false) => TriggerDecision::Skip,
                None => TriggerDecision::SkipOnError,
            }
        },
{
    if !cron_ok {
        return TriggerDecision::Skip;
    }
    match condition {
        Some(true) => TriggerDecision::Execute,
        Some(false) => TriggerDecision::Skip,
        None => TriggerDecision::SkipOnError,
    }
}

/// A trigger with several cron expressions runs when any one of them, in
/// any position of the list, is the cron expression that fired, and only
/// then; a trigger with one expression runs exactly on it; a trigger for
/// every expression always runs.
pub proof fn lemma_cron_matches_any(schedule: CronSchedule, current: Seq<char>)
    ensures
        schedule is All ==> spec_cron_matches(schedule, current),
        schedule matches CronSchedule::Single(p) ==> (spec_cron_matches(schedule, current) <==> p@ == current),
        schedule matches CronSchedule::Multiple(ps) ==> (forall|i: int|
            0 <= i < ps@.len() && (#[trigger] ps@[i])@ == current ==> spec_cron_matches(schedule, current)),
        schedule matches CronSchedule::Multiple(ps) ==> ((forall|i: int|
            0 <= i < ps@.len() ==> (#[trigger] ps@[i])@ != current) ==> !spec_cron_matches(schedule, current)),
{
}

} // verus!
