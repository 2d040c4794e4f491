//! The data the reconciler works on: resource records, the error taxonomy,
//! cloud reply shapes, and the parsed provisioning configuration.

use vstd::prelude::*;

use crate::text::str_eq;

verus! {

/// A provisioned topic: its cloud identifier.
#[derive(Clone, Debug)]
pub struct TopicRecord {
    pub arn: String,
}

/// A provisioned queue: its URL and its cloud identifier.
#[derive(Clone, Debug)]
pub struct QueueRecord {
    pub url: String,
    pub arn: String,
}

/// A provisioned subscription: its cloud identifier.
#[derive(Clone, Debug)]
pub struct SubscriptionRecord {
    pub arn: String,
}

/// Why a unit of work failed. Every leaf either succeeds or carries exactly
/// one of these; none aborts a sibling.
#[derive(Clone, Debug)]
pub enum PinnError {
    /// The supplied configuration is structurally invalid.
    ConfigError { detail: String },
    /// A cloud call itself failed; carries the operation name and the
    /// service's error text.
    ServiceError { operation: String, detail: String },
    /// A call reported success but omitted a field its contract guarantees.
    ContractViolation { operation: String },
    /// A queue needs an access policy, but the region or account id required
    /// to build one is missing in a non-local, non-unknown environment.
    PolicyUnresolvable { queue: String },
}

/// The reply of a cloud call that, on success, may carry one identifier.
#[derive(Clone, Debug)]
pub enum ServiceReply {
    /// The call succeeded; `id` is the identifier it returned, if any.
    Value { id: Option<String> },
    /// The call failed; `detail` is the service's error text.
    Failure { detail: String },
}

/// The topics one queue must be subscribed to, in configuration order.
#[derive(Clone, Debug)]
pub struct SQSQueueConfig {
    pub topics: Vec<String>,
}

/// The parsed provisioning configuration: queue logical names, each with the
/// topics to subscribe, keys unique.
#[derive(Clone, Debug)]
pub struct PinnConfig {
    entries: Vec<(String, SQSQueueConfig)>,
}

impl View for PinnConfig {
    type V = Seq<(String, SQSQueueConfig)>;

    closed spec fn view(&self) -> Seq<(String, SQSQueueConfig)> {
        self.entries@
    }
}

/// Whether a sequence of configuration entries repeats a queue name.
pub open spec fn spec_has_duplicate(s: Seq<(String, SQSQueueConfig)>) -> bool {
    exists|i: int, j: int| 0 <= i < j < s.len() && s[i].0@ == s[j].0@
}

impl PinnConfig {
    /// Every queue name occurs once.
    pub open spec fn wf(&self) -> bool {
        !spec_has_duplicate(self@)
    }

    /// The environment and configuration a run falls back to when nothing
    /// was resolved: the unknown environment and an empty topology.
    pub fn for_unknown_env() -> (r: Result<(crate::env::EnvName, PinnConfig), PinnError>)
        ensures
            r matches Ok(p) && p.0 == crate::env::EnvName::Unknown && p.1@.len() == 0
                && p.1.wf(),
    {
        Ok((crate::env::EnvName::Unknown, PinnConfig { entries: Vec::new() }))
    }

    /// Builds a configuration from parsed entries, rejecting a repeated
    /// queue name: success exactly when every key is unique.
    pub fn from_entries(entries: Vec<(String, SQSQueueConfig)>) -> (r: Result<
        PinnConfig,
        PinnError,
    >)
        ensures
            !spec_has_duplicate(entries@) ==> (r matches Ok(c) && c@ == entries@ && c.wf()),
            spec_has_duplicate(entries@) ==> (r matches Err(e) && e matches
                PinnError::ConfigError { detail } && detail@ == "duplicate queue name"@),
    {
        let n = entries.len();
        let mut i: usize = 0;
        while i < n
            invariant
                0 <= i <= n,
                n == entries@.len(),
                forall|p: int, q: int| 0 <= p < q < n && p < i ==> entries@[p].0@ != entries@[q].0@,
            decreases n - i,
        {
            let mut j: usize = i + 1;
            while j < n
                invariant
                    i < j <= n,
                    n == entries@.len(),
                    forall|q: int| i < q < j ==> entries@[i as int].0@ != entries@[q].0@,
                decreases n - j,
            {
                if str_eq(entries[i].0.as_str(), entries[j].0.as_str()) {
                    return Err(
                        PinnError::ConfigError {
                            detail: String::from_str("duplicate queue name"),
                        },
                    );
                }
                j += 1;
            }
            i += 1;
        }
        Ok(PinnConfig { entries })
    }

    /// The configuration's entries, in their stored order.
    pub fn entries(&self) -> (r: &Vec<(String, SQSQueueConfig)>)
        ensures
            r@ == self@,
    {
        &self.entries
    }

    /// How many queue groups the configuration holds.
    pub fn len(&self) -> (r: usize)
        ensures
            r == self@.len(),
    {
        self.entries.len()
    }
}

} // verus!
