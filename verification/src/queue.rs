//! Queue provisioning as a small protocol: compute the physical name and
//! the access policy, create the queue, adopt it by URL lookup when the
//! name already exists, and finally fetch its ARN attribute. The driver
//! performs the network calls and feeds each reply back into the flow.

use vstd::prelude::*;

use crate::env::{spec_opt_view, spec_suffix, EnvName};
use crate::names::{physical_name, spec_physical_name};
use crate::policy::{queue_policy, spec_queue_policy};
use crate::types::{PinnError, QueueRecord, ServiceReply};

verus! {

/// Where provisioning one queue stands. The first three states name the
/// next cloud call to make; the last two are final.
#[derive(Debug)]
pub enum QueueFlow {
    /// Next action: create the queue `name`, attaching `policy` if any.
    CreateQueue { name: String, policy: Option<String> },
    /// Adoption: a queue of this name already exists; next action: look up
    /// its URL instead of failing.
    LookupUrl { name: String },
    /// Next action: fetch the ARN attribute of the queue at `url`.
    FetchArn { name: String, url: String },
    /// The queue exists; its record is complete.
    Done { record: QueueRecord },
    /// This leaf failed.
    Failed { error: PinnError },
}

/// The reply of the create-queue call.
#[derive(Debug)]
pub enum CreateQueueReply {
    /// The call succeeded; `url` is the queue URL it returned, if any.
    Created { url: Option<String> },
    /// The call failed because a queue of this name already exists.
    NameExists,
    /// The call failed for any other reason; `detail` is the service's
    /// error text.
    Failure { detail: String },
}

/// Whether a policy document can be built: only when both region and
/// account id are known.
pub open spec fn spec_policy_available(
    region: Option<Seq<char>>,
    account: Option<Seq<char>>,
) -> bool {
    region is Some && account is Some
}

/// What `QueueFlow::start` yields. With region and account known, the flow
/// asks for creation with the full policy attached. With either missing it
/// proceeds without a policy in the `Local` and `Unknown` environments, and
/// fails with `PolicyUnresolvable` in every other environment: provisioning
/// a queue without a correct policy in a real environment is unsafe, not
/// skippable.
pub open spec fn spec_queue_start(
    logical: Seq<char>,
    env: EnvName,
    region: Option<Seq<char>>,
    account: Option<Seq<char>>,
    r: QueueFlow,
) -> bool {
    let name = spec_physical_name(logical, env);
    if spec_policy_available(region, account) {
        r matches QueueFlow::CreateQueue { name: n, policy } && n@ == name && (policy matches Some(
            p,
        ) && p@ == spec_queue_policy(region->0, account->0, name, spec_suffix(env)))
    } else if env == EnvName::Local || env == EnvName::Unknown {
        r matches QueueFlow::CreateQueue { name: n, policy } && n@ == name && policy is None
    } else {
        r matches QueueFlow::Failed { error } && error matches PinnError::PolicyUnresolvable {
            queue,
        } && queue@ == name
    }
}

/// What `QueueFlow::on_create` yields for each reply: a returned URL moves
/// to the ARN fetch; a success without one is a `ContractViolation`; an
/// existing name moves to adoption; any other failure is a `ServiceError`.
pub open spec fn spec_on_create(pre: QueueFlow, reply: CreateQueueReply, r: QueueFlow) -> bool {
    match pre {
        QueueFlow::CreateQueue { name, policy: _ } => match reply {
            CreateQueueReply::Created { url: Some(u) } => r matches QueueFlow::FetchArn {
                name: n,
                url,
            } && n@ == name@ && url@ == u@,
            CreateQueueReply::Created { url: None } => r matches QueueFlow::Failed { error }
                && error matches PinnError::ContractViolation { operation } && operation@
                == "create-queue"@,
            CreateQueueReply::NameExists => r matches QueueFlow::LookupUrl { name: n } && n@
                == name@,
            CreateQueueReply::Failure { detail } => r matches QueueFlow::Failed { error }
                && error matches PinnError::ServiceError { operation, detail: d } && operation@
                == "create-queue"@ && d@ == detail@,
        },
        _ => false,
    }
}

/// What `QueueFlow::on_lookup` yields for each reply of the adoption
/// lookup.
pub open spec fn spec_on_lookup(pre: QueueFlow, reply: ServiceReply, r: QueueFlow) -> bool {
    match pre {
        QueueFlow::LookupUrl { name } => match reply {
            ServiceReply::Value { id: Some(u) } => r matches QueueFlow::FetchArn { name: n, url }
                && n@ == name@ && url@ == u@,
            ServiceReply::Value { id: None } => r matches QueueFlow::Failed { error }
                && error matches PinnError::ContractViolation { operation } && operation@
                == "get-queue-url"@,
            ServiceReply::Failure { detail } => r matches QueueFlow::Failed { error }
                && error matches PinnError::ServiceError { operation, detail: d } && operation@
                == "get-queue-url"@ && d@ == detail@,
        },
        _ => false,
    }
}

/// What `QueueFlow::on_fetch` yields for each reply of the ARN attribute
/// fetch.
pub open spec fn spec_on_fetch(pre: QueueFlow, reply: ServiceReply, r: QueueFlow) -> bool {
    match pre {
        QueueFlow::FetchArn { name: _, url } => match reply {
            ServiceReply::Value { id: Some(a) } => r matches QueueFlow::Done { record }
                && record.url@ == url@ && record.arn@ == a@,
            ServiceReply::Value { id: None } => r matches QueueFlow::Failed { error }
                && error matches PinnError::ContractViolation { operation } && operation@
                == "get-queue-attributes"@,
            ServiceReply::Failure { detail } => r matches QueueFlow::Failed { error }
                && error matches PinnError::ServiceError { operation, detail: d } && operation@
                == "get-queue-attributes"@ && d@ == detail@,
        },
        _ => false,
    }
}

impl QueueFlow {
    /// Begins provisioning the queue with this logical name: computes the
    /// physical name and, when region and account id are known, the access
    /// policy to attach.
    pub fn start(logical: &str, env: EnvName, region: Option<&str>, account_id: Option<&str>) -> (r:
        QueueFlow)
        ensures
            spec_queue_start(logical@, env, spec_opt_view(region), spec_opt_view(account_id), r),
    {
        let name = physical_name(logical, env);
        match (region, account_id) {
            (Some(reg), Some(acc)) => {
                let policy = queue_policy(reg, acc, name.as_str(), env.as_suffix());
                QueueFlow::CreateQueue { name, policy: Some(policy) }
            },
            _ => {
                if env.is_local() || env.is_unknown() {
                    QueueFlow::CreateQueue { name, policy: None }
                } else {
                    QueueFlow::Failed { error: PinnError::PolicyUnresolvable { queue: name } }
                }
            },
        }
    }

    /// Advances the flow on the reply of the create-queue call.
    pub fn on_create(self, reply: CreateQueueReply) -> (r: QueueFlow)
        requires
            self is CreateQueue,
        ensures
            spec_on_create(self, reply, r),
    {
        match self {
            QueueFlow::CreateQueue { name, policy: _ } => match reply {
                CreateQueueReply::Created { url: Some(u) } => QueueFlow::FetchArn {
                    name,
                    url: u,
                },
                CreateQueueReply::Created { url: None } => QueueFlow::Failed {
                    error: PinnError::ContractViolation {
                        operation: String::from_str("create-queue"),
                    },
                },
                CreateQueueReply::NameExists => QueueFlow::LookupUrl { name },
                CreateQueueReply::Failure { detail } => QueueFlow::Failed {
                    error: PinnError::ServiceError {
                        operation: String::from_str("create-queue"),
                        detail,
                    },
                },
            },
            _ => self,
        }
    }

    /// Advances the flow on the reply of the adoption URL lookup.
    pub fn on_lookup(self, reply: ServiceReply) -> (r: QueueFlow)
        requires
            self is LookupUrl,
        ensures
            spec_on_lookup(self, reply, r),
    {
        match self {
            QueueFlow::LookupUrl { name } => match reply {
                ServiceReply::Value { id: Some(u) } => QueueFlow::FetchArn { name, url: u },
                ServiceReply::Value { id: None } => QueueFlow::Failed {
                    error: PinnError::ContractViolation {
                        operation: String::from_str("get-queue-url"),
                    },
                },
                ServiceReply::Failure { detail } => QueueFlow::Failed {
                    error: PinnError::ServiceError {
                        operation: String::from_str("get-queue-url"),
                        detail,
                    },
                },
            },
            _ => self,
        }
    }

    /// Advances the flow on the reply of the ARN attribute fetch.
    pub fn on_fetch(self, reply: ServiceReply) -> (r: QueueFlow)
        requires
            self is FetchArn,
        ensures
            spec_on_fetch(self, reply, r),
    {
        match self {
            QueueFlow::FetchArn { name: _, url } => match reply {
                ServiceReply::Value { id: Some(a) } => QueueFlow::Done {
                    record: QueueRecord { url, arn: a },
                },
                ServiceReply::Value { id: None } => QueueFlow::Failed {
                    error: PinnError::ContractViolation {
                        operation: String::from_str("get-queue-attributes"),
                    },
                },
                ServiceReply::Failure { detail } => QueueFlow::Failed {
                    error: PinnError::ServiceError {
                        operation: String::from_str("get-queue-attributes"),
                        detail,
                    },
                },
            },
            _ => self,
        }
    }
}

/// Ensuring a queue twice returns the identical URL and ARN, and the second
/// run does not fail although the queue already exists.
///
/// Both runs start from the same logical name, environment, region and
/// account, and the inputs admit a policy decision, so both ask to create
/// the same physical name. The first run creates the queue: the service
/// returns its URL, and the ARN fetch completes the record. In the second
/// run the creation hits the existing name; the flow adopts the queue by
/// URL lookup, which by the service's contract returns the URL of the queue
/// of that name, and the ARN fetch on the same URL returns the same ARN.
/// Both runs end `Done` with the identical record.
pub proof fn lemma_ensure_queue_idempotent(
    logical: Seq<char>,
    env: EnvName,
    region: Option<Seq<char>>,
    account: Option<Seq<char>>,
    url: String,
    arn: String,
    f0: QueueFlow,
    f1: QueueFlow,
    f2: QueueFlow,
    g0: QueueFlow,
    g1: QueueFlow,
    g2: QueueFlow,
    g3: QueueFlow,
)
    requires
        // first run: start, creation succeeds returning `url`, fetch returns `arn`,
        spec_queue_start(logical, env, region, account, f0),
        !(f0 is Failed),
        spec_on_create(f0, CreateQueueReply::Created { url: Some(url) }, f1),
        spec_on_fetch(f1, ServiceReply::Value { id: Some(arn) }, f2),
        // second run, same inputs: the name now exists; the service returns the
        // same `url` for the name and the same `arn` for that `url`,
        spec_queue_start(logical, env, region, account, g0),
        spec_on_create(g0, CreateQueueReply::NameExists, g1),
        spec_on_lookup(g1, ServiceReply::Value { id: Some(url) }, g2),
        spec_on_fetch(g2, ServiceReply::Value { id: Some(arn) }, g3),
    ensures
        (f2 matches QueueFlow::Done { record } && record.url@ == url@ && record.arn@ == arn@),
        (g3 matches QueueFlow::Done { record } && record.url@ == url@ && record.arn@ == arn@),
{
}

} // verus!
