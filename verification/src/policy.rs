//! Generation of the access policy attached to a queue: it lets any topic
//! suffixed for the current environment deliver into the queue, and gives
//! the account's root principal full access.

use vstd::prelude::*;

verus! {

/// The ARN of the physical queue the policy protects.
pub open spec fn spec_queue_resource_arn(
    region: Seq<char>,
    account: Seq<char>,
    queue_name: Seq<char>,
) -> Seq<char> {
    "arn:aws:sqs:"@ + region + ":"@ + account + ":"@ + queue_name
}

/// The source pattern the delivery statement is conditioned on: any topic
/// in the region and account that carries the environment's suffix.
pub open spec fn spec_topic_source_pattern(
    region: Seq<char>,
    account: Seq<char>,
    suffix: Seq<char>,
) -> Seq<char> {
    "arn:aws:sns:"@ + region + ":"@ + account + ":*-"@ + suffix
}

/// The account's root principal.
pub open spec fn spec_root_principal(account: Seq<char>) -> Seq<char> {
    "arn:aws:iam::"@ + account + ":root"@
}

/// The whole policy document: a statement granting `sqs:SendMessage` on the
/// queue to the topic service, conditioned on the source pattern, and a
/// statement granting the account root full access.
pub open spec fn spec_queue_policy(
    region: Seq<char>,
    account: Seq<char>,
    queue_name: Seq<char>,
    suffix: Seq<char>,
) -> Seq<char> {
    "{\"Version\": \"2008-10-17\", \"Statement\": [{\"Action\": \"sqs:SendMessage\", \"Effect\": \"Allow\", \"Resource\": \""@
        + spec_queue_resource_arn(region, account, queue_name)
        + "\", \"Condition\": {\"ArnLike\": {\"aws:SourceArn\": \""@
        + spec_topic_source_pattern(region, account, suffix)
        + "\"}}, \"Principal\": {\"Service\": \"sns.amazonaws.com\"}}, {\"Effect\": \"Allow\", \"Principal\": {\"AWS\": \""@
        + spec_root_principal(account)
        + "\"}, \"Action\": \"SQS:*\", \"Resource\": \""@
        + spec_queue_resource_arn(region, account, queue_name)
        + "\"}]}"@
}

/// Builds the ARN of the queue the policy speaks of.
pub fn queue_resource_arn(region: &str, account: &str, queue_name: &str) -> (r: String)
    ensures
        r@ == spec_queue_resource_arn(region@, account@, queue_name@),
{
    let mut s = String::from_str("arn:aws:sqs:");
    s.append(region);
    s.append(":");
    s.append(account);
    s.append(":");
    s.append(queue_name);
    proof {
        assert(s@ =~= spec_queue_resource_arn(region@, account@, queue_name@));
    }
    s
}

/// Builds the source pattern naming every topic suffixed for the
/// environment.
pub fn topic_source_pattern(region: &str, account: &str, suffix: &str) -> (r: String)
    ensures
        r@ == spec_topic_source_pattern(region@, account@, suffix@),
{
    let mut s = String::from_str("arn:aws:sns:");
    s.append(region);
    s.append(":");
    s.append(account);
    s.append(":*-");
    s.append(suffix);
    proof {
        assert(s@ =~= spec_topic_source_pattern(region@, account@, suffix@));
    }
    s
}

/// Builds the account's root principal.
pub fn root_principal(account: &str) -> (r: String)
    ensures
        r@ == spec_root_principal(account@),
{
    let mut s = String::from_str("arn:aws:iam::");
    s.append(account);
    s.append(":root");
    proof {
        assert(s@ =~= spec_root_principal(account@));
    }
    s
}

/// Builds the whole policy document for one queue.
pub fn queue_policy(region: &str, account: &str, queue_name: &str, suffix: &str) -> (r: String)
    ensures
        r@ == spec_queue_policy(region@, account@, queue_name@, suffix@),
{
    let resource = queue_resource_arn(region, account, queue_name);
    let source = topic_source_pattern(region, account, suffix);
    let root = root_principal(account);
    let mut s = String::from_str(
        "{\"Version\": \"2008-10-17\", \"Statement\": [{\"Action\": \"sqs:SendMessage\", \"Effect\": \"Allow\", \"Resource\": \"",
    );
    s.append(resource.as_str());
    s.append("\", \"Condition\": {\"ArnLike\": {\"aws:SourceArn\": \"");
    s.append(source.as_str());
    s.append("\"}}, \"Principal\": {\"Service\": \"sns.amazonaws.com\"}}, {\"Effect\": \"Allow\", \"Principal\": {\"AWS\": \"");
    s.append(root.as_str());
    s.append("\"}, \"Action\": \"SQS:*\", \"Resource\": \"");
    s.append(resource.as_str());
    s.append("\"}]}");
    proof {
        assert(s@ =~= spec_queue_policy(region@, account@, queue_name@, suffix@));
    }
    s
}

} // verus!
