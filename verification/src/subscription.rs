//! Subscription provisioning: ensuring the topic first, then one subscribe
//! call with the protocol fixed to queue delivery. The subscribe operation
//! is idempotent at the API level: repeated calls with identical topic,
//! protocol and endpoint return the same subscription identifier.

use vstd::prelude::*;

use crate::topic::spec_topic_created;
use crate::types::{PinnError, ServiceReply, SubscriptionRecord, TopicRecord};

verus! {

/// The subscribe call the library asks the driver to make.
#[derive(Debug)]
pub struct SubscribeRequest {
    pub topic_arn: String,
    pub protocol: String,
    pub endpoint: String,
}

/// What `subscribe_request` builds: the topic's ARN, the fixed queue
/// delivery protocol, and the queue's ARN as endpoint.
pub open spec fn spec_subscribe_request(
    topic_arn: Seq<char>,
    queue_arn: Seq<char>,
    r: SubscribeRequest,
) -> bool {
    r.topic_arn@ == topic_arn && r.protocol@ == "sqs"@ && r.endpoint@ == queue_arn
}

/// Builds the subscribe call for one (topic, queue) pair.
pub fn subscribe_request(topic_arn: &str, queue_arn: &str) -> (r: SubscribeRequest)
    ensures
        spec_subscribe_request(topic_arn@, queue_arn@, r),
{
    SubscribeRequest {
        topic_arn: topic_arn.to_owned(),
        protocol: String::from_str("sqs"),
        endpoint: queue_arn.to_owned(),
    }
}

/// What `subscription_created` returns for each possible reply of the
/// subscribe call.
pub open spec fn spec_subscription_created(
    reply: ServiceReply,
    r: Result<SubscriptionRecord, PinnError>,
) -> bool {
    match reply {
        ServiceReply::Value { id: Some(arn) } => r matches Ok(rec) && rec.arn@ == arn@,
        ServiceReply::Value { id: None } => r matches Err(e) && e matches
            PinnError::ContractViolation { operation } && operation@ == "subscribe"@,
        ServiceReply::Failure { detail } => r matches Err(e) && e matches
            PinnError::ServiceError { operation, detail: d } && operation@ == "subscribe"@
            && d@ == detail@,
    }
}

/// Judges the reply of the subscribe call: the record on an identifier,
/// `ContractViolation` on a success without one (anomalous for queue
/// delivery, which needs no confirmation), `ServiceError` on a failed call.
pub fn subscription_created(reply: ServiceReply) -> (r: Result<SubscriptionRecord, PinnError>)
    ensures
        spec_subscription_created(reply, r),
{
    match reply {
        ServiceReply::Value { id: Some(arn) } => Ok(SubscriptionRecord { arn }),
        ServiceReply::Value { id: None } => Err(
            PinnError::ContractViolation { operation: String::from_str("subscribe") },
        ),
        ServiceReply::Failure { detail } => Err(
            PinnError::ServiceError { operation: String::from_str("subscribe"), detail },
        ),
    }
}

/// Ensuring a subscription twice yields the same identifier.
///
/// Both runs ensure the topic first; since the topic service keeps at most
/// one topic per exact name, they see the same topic ARN. From it and the
/// queue's ARN each run builds its subscribe request, so the two requests
/// are identical; and since subscribe is idempotent for identical requests,
/// the service answers both with the same subscription identifier. Under
/// those service guarantees, neither run fails and both return the same
/// subscription record.
pub proof fn lemma_ensure_subscription_idempotent(
    topic_arn: String,
    queue_arn: Seq<char>,
    sub_arn: String,
    t1: Result<TopicRecord, PinnError>,
    t2: Result<TopicRecord, PinnError>,
    q1: SubscribeRequest,
    q2: SubscribeRequest,
    s1: Result<SubscriptionRecord, PinnError>,
    s2: Result<SubscriptionRecord, PinnError>,
)
    requires
        spec_topic_created(ServiceReply::Value { id: Some(topic_arn) }, t1),
        spec_topic_created(ServiceReply::Value { id: Some(topic_arn) }, t2),
        (t1 matches Ok(rec1) && spec_subscribe_request(rec1.arn@, queue_arn, q1)),
        (t2 matches Ok(rec2) && spec_subscribe_request(rec2.arn@, queue_arn, q2)),
        spec_subscription_created(ServiceReply::Value { id: Some(sub_arn) }, s1),
        spec_subscription_created(ServiceReply::Value { id: Some(sub_arn) }, s2),
    ensures
        q1.topic_arn@ == q2.topic_arn@,
        q1.protocol@ == q2.protocol@,
        q1.endpoint@ == q2.endpoint@,
        (s1 matches Ok(a) && s2 matches Ok(b) && a.arn@ == b.arn@ && a.arn@ == sub_arn@),
{
}

} // verus!
