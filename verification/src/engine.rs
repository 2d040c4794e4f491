//! The reconciliation engine's decision half: fanning the configuration out
//! into independent units of work, and folding every leaf outcome into one
//! process result. The driver schedules the units concurrently; within one
//! queue group the queue must be ensured before any of its subscriptions,
//! and no leaf's failure touches a sibling.

use vstd::prelude::*;

use crate::text::{clone_strings, str_eq};
use crate::types::{PinnConfig, PinnError, SQSQueueConfig};

verus! {

/// The reserved queue name that means "create these topics only; no queue,
/// no subscriptions". Recognized case-sensitively.
pub open spec fn spec_sentinel() -> Seq<char> {
    "unsubscribed"@
}

/// Whether a queue name is the sentinel.
pub fn is_sentinel(name: &str) -> (r: bool)
    ensures
        r == (name@ == spec_sentinel()),
{
    str_eq(name, "unsubscribed")
}

/// One independent unit of work.
#[derive(Debug)]
pub enum ProvisionUnit {
    /// The sentinel group: ensure each topic; no queue or subscription is
    /// touched.
    Topics { topics: Vec<String> },
    /// A queue group: ensure the queue first, then subscribe it to each
    /// topic.
    Queue { queue: String, topics: Vec<String> },
}

/// What unit one configuration entry turns into: the sentinel key yields a
/// topics-only unit, every other key a queue group under its own name.
pub open spec fn spec_plan_unit(entry: (String, SQSQueueConfig), unit: ProvisionUnit) -> bool {
    if entry.0@ == spec_sentinel() {
        unit matches ProvisionUnit::Topics { topics } && topics@ == entry.1.topics@
    } else {
        unit matches ProvisionUnit::Queue { queue, topics } && queue@ == entry.0@ && topics@
            == entry.1.topics@
    }
}

/// Turns the configuration into its units of work, one per entry, in entry
/// order. The sentinel group never yields a queue or a subscription.
pub fn plan(config: &PinnConfig) -> (r: Vec<ProvisionUnit>)
    ensures
        r@.len() == config@.len(),
        forall|i: int| 0 <= i < r@.len() ==> spec_plan_unit(config@[i], r@[i]),
{
    let entries = config.entries();
    let mut units: Vec<ProvisionUnit> = Vec::new();
    let mut i: usize = 0;
    while i < entries.len()
        invariant
            0 <= i <= entries@.len(),
            entries@ == config@,
            units@.len() == i,
            forall|j: int| 0 <= j < i ==> spec_plan_unit(config@[j], units@[j]),
        decreases entries@.len() - i,
    {
        let topics = clone_strings(&entries[i].1.topics);
        if is_sentinel(entries[i].0.as_str()) {
            units.push(ProvisionUnit::Topics { topics });
        } else {
            units.push(ProvisionUnit::Queue { queue: entries[i].0.clone(), topics });
        }
        i += 1;
    }
    units
}

/// The outcome of one leaf operation. Every leaf yields exactly one; none
/// is silently dropped.
#[derive(Clone, Debug)]
pub enum ProvisionOutcome {
    Success,
    Failure { error: PinnError },
}

/// How many of the outcomes are failures.
pub open spec fn spec_count_failures(s: Seq<ProvisionOutcome>) -> nat
    decreases s.len(),
{
    if s.len() == 0 {
        0
    } else {
        spec_count_failures(s.drop_last()) + if s.last() is Failure {
            1nat
        } else {
            0nat
        }
    }
}

/// Folds the collected leaf outcomes into the aggregate failure count,
/// exactly the number of failed leaves.
pub fn count_failures(outcomes: &Vec<ProvisionOutcome>) -> (n: usize)
    ensures
        n == spec_count_failures(outcomes@),
{
    let mut n: usize = 0;
    let mut i: usize = 0;
    while i < outcomes.len()
        invariant
            0 <= i <= outcomes@.len(),
            n == spec_count_failures(outcomes@.take(i as int)),
            n <= i,
        decreases outcomes@.len() - i,
    {
        match &outcomes[i] {
            ProvisionOutcome::Failure { .. } => {
                n += 1;
            },
            ProvisionOutcome::Success => {},
        }
        i += 1;
        proof {
            assert(outcomes@.take(i as int).drop_last() =~= outcomes@.take(i - 1));
        }
    }
    proof {
        assert(outcomes@.take(outcomes@.len() as int) =~= outcomes@);
    }
    n
}

/// The value the process reports for a failure count: zero when the
/// operator forced success, otherwise the count itself, saturated at the
/// widest value the exit status can carry rather than wrapping.
pub open spec fn spec_exit_code(failures: nat, force_success: bool) -> nat {
    if force_success {
        0
    } else if failures > 255 {
        255
    } else {
        failures
    }
}

/// The value the process reports: zero on no failures, and zero whatever
/// the count when the operator set `force_success`; otherwise the failure
/// count, saturated at the widest value the exit status can carry rather
/// than wrapping.
pub fn exit_code(failures: usize, force_success: bool) -> (r: u8)
    ensures
        r == spec_exit_code(failures as nat, force_success),
        force_success ==> r == 0,
        !force_success && failures <= 255 ==> r == failures,
        !force_success && failures > 255 ==> r == 255,
        r == 0 <==> (force_success || failures == 0),
{
    if force_success {
        0
    } else if failures > 255 {
        255
    } else {
        failures as u8
    }
}

/// The aggregate outcome a run reports equals the exact number of failed
/// leaves whenever that number is representable and success was not
/// forced; with `force_success` set, the reported outcome is success
/// whatever the true count.
pub proof fn lemma_reported_outcome(outcomes: Seq<ProvisionOutcome>, force_success: bool)
    ensures
        !force_success && spec_count_failures(outcomes) <= 255 ==> spec_exit_code(
            spec_count_failures(outcomes),
            force_success,
        ) == spec_count_failures(outcomes),
        force_success ==> spec_exit_code(spec_count_failures(outcomes), force_success) == 0,
{
}

} // verus!
