//! Topic provisioning: the create-topic operation is idempotent at the API
//! level (at most one topic per exact name, repeated calls return the same
//! ARN), so ensuring a topic is one call whose reply is judged here.

use vstd::prelude::*;

use crate::types::{PinnError, ServiceReply, TopicRecord};

verus! {

/// What `topic_created` returns for each possible reply of the create-topic
/// call: the record on an ARN, `ContractViolation` on a success without an
/// ARN, `ServiceError` on a failed call.
pub open spec fn spec_topic_created(reply: ServiceReply, r: Result<TopicRecord, PinnError>) -> bool {
    match reply {
        ServiceReply::Value { id: Some(arn) } => r matches Ok(rec) && rec.arn@ == arn@,
        ServiceReply::Value { id: None } => r matches Err(e) && e matches
            PinnError::ContractViolation { operation } && operation@ == "create-topic"@,
        ServiceReply::Failure { detail } => r matches Err(e) && e matches
            PinnError::ServiceError { operation, detail: d } && operation@ == "create-topic"@
            && d@ == detail@,
    }
}

/// Judges the reply of the create-topic call made for a physical topic
/// name, yielding the topic's record or this leaf's failure.
pub fn topic_created(reply: ServiceReply) -> (r: Result<TopicRecord, PinnError>)
    ensures
        spec_topic_created(reply, r),
{
    match reply {
        ServiceReply::Value { id: Some(arn) } => Ok(TopicRecord { arn }),
        ServiceReply::Value { id: None } => Err(
            PinnError::ContractViolation { operation: String::from_str("create-topic") },
        ),
        ServiceReply::Failure { detail } => Err(
            PinnError::ServiceError { operation: String::from_str("create-topic"), detail },
        ),
    }
}

} // verus!
