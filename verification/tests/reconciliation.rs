//! Planning, aggregation, and the end-to-end pass over a configuration.

use pinnothera::engine::{count_failures, exit_code, is_sentinel, plan, ProvisionOutcome, ProvisionUnit};
use pinnothera::env::EnvName;
use pinnothera::names::physical_name;
use pinnothera::queue::{CreateQueueReply, QueueFlow};
use pinnothera::subscription::{subscribe_request, subscription_created};
use pinnothera::topic::topic_created;
use pinnothera::types::{PinnConfig, PinnError, SQSQueueConfig, ServiceReply};

fn config_of(entries: Vec<(&str, Vec<&str>)>) -> PinnConfig {
    let entries = entries
        .into_iter()
        .map(|(queue, topics)| {
            (
                queue.to_string(),
                SQSQueueConfig {
                    topics: topics.into_iter().map(str::to_string).collect(),
                },
            )
        })
        .collect();
    PinnConfig::from_entries(entries).expect("unique keys")
}

#[test]
fn sentinel_is_case_sensitive() {
    assert!(is_sentinel("unsubscribed"));
    assert!(!is_sentinel("Unsubscribed"));
    assert!(!is_sentinel("unsubscribed "));
    assert!(!is_sentinel("billing"));
}

#[test]
fn sentinel_group_creates_topics_and_no_subscriptions() {
    let config = config_of(vec![("unsubscribed", vec!["a", "b"])]);
    let units = plan(&config);
    assert_eq!(units.len(), 1);
    match &units[0] {
        ProvisionUnit::Topics { topics } => {
            assert_eq!(topics, &vec!["a".to_string(), "b".to_string()]);
        }
        ProvisionUnit::Queue { .. } => panic!("the sentinel group must not yield a queue group"),
    }
    // The sentinel unit carries no queue, so the driver has nothing to
    // subscribe: creating its topics is the whole unit.
    let env = EnvName::Dev;
    assert_eq!(physical_name("a", env), "a-dev");
    assert_eq!(physical_name("b", env), "b-dev");
}

#[test]
fn plan_keeps_entry_order_and_splits_groups() {
    let config = config_of(vec![
        ("billing", vec!["invoice-created"]),
        ("unsubscribed", vec!["audit"]),
        ("shipping", vec![]),
    ]);
    let units = plan(&config);
    assert_eq!(units.len(), 3);
    match &units[0] {
        ProvisionUnit::Queue { queue, topics } => {
            assert_eq!(queue, "billing");
            assert_eq!(topics, &vec!["invoice-created".to_string()]);
        }
        _ => panic!("expected a queue group first"),
    }
    match &units[1] {
        ProvisionUnit::Topics { topics } => assert_eq!(topics, &vec!["audit".to_string()]),
        _ => panic!("expected the sentinel group second"),
    }
    match &units[2] {
        ProvisionUnit::Queue { queue, topics } => {
            assert_eq!(queue, "shipping");
            assert!(topics.is_empty());
        }
        _ => panic!("expected a queue group third"),
    }
}

#[test]
fn duplicate_queue_names_are_rejected() {
    let entries = vec![
        (
            "billing".to_string(),
            SQSQueueConfig { topics: vec!["a".to_string()] },
        ),
        (
            "billing".to_string(),
            SQSQueueConfig { topics: vec!["b".to_string()] },
        ),
    ];
    match PinnConfig::from_entries(entries) {
        Err(PinnError::ConfigError { detail }) => assert_eq!(detail, "duplicate queue name"),
        _ => panic!("a repeated queue name must be a ConfigError"),
    }
}

#[test]
fn fallback_configuration_is_empty_and_unknown() {
    let (env, config) = PinnConfig::for_unknown_env().expect("the fallback never fails");
    assert_eq!(env, EnvName::Unknown);
    assert_eq!(config.len(), 0);
    assert!(plan(&config).is_empty());
}

#[test]
fn failure_count_is_exact() {
    let outcomes: Vec<ProvisionOutcome> = Vec::new();
    assert_eq!(count_failures(&outcomes), 0);

    let outcomes = vec![
        ProvisionOutcome::Success,
        ProvisionOutcome::Failure {
            error: PinnError::ContractViolation { operation: "subscribe".to_string() },
        },
        ProvisionOutcome::Success,
        ProvisionOutcome::Failure {
            error: PinnError::ServiceError {
                operation: "create-topic".to_string(),
                detail: "throttled".to_string(),
            },
        },
        ProvisionOutcome::Failure {
            error: PinnError::PolicyUnresolvable { queue: "q-prod".to_string() },
        },
    ];
    assert_eq!(count_failures(&outcomes), 3);
}

#[test]
fn exit_code_reports_count_unless_forced() {
    assert_eq!(exit_code(0, false), 0);
    assert_eq!(exit_code(3, false), 3);
    assert_eq!(exit_code(255, false), 255);
    assert_eq!(exit_code(256, false), 255);
    assert_eq!(exit_code(10_000, false), 255);
    assert_eq!(exit_code(0, true), 0);
    assert_eq!(exit_code(3, true), 0);
    assert_eq!(exit_code(10_000, true), 0);
}

#[test]
fn end_to_end_billing_group_in_prod() {
    let config = config_of(vec![("billing", vec!["invoice-created", "invoice-paid"])]);
    let env = EnvName::Prod;
    let units = plan(&config);
    assert_eq!(units.len(), 1);
    let (queue, topics) = match &units[0] {
        ProvisionUnit::Queue { queue, topics } => (queue.clone(), topics.clone()),
        _ => panic!("expected one queue group"),
    };

    let mut outcomes: Vec<ProvisionOutcome> = Vec::new();

    // The queue is ensured first: created or adopted as `billing-prod`.
    let flow = QueueFlow::start(&queue, env, Some("us-east-1"), Some("123456789012"));
    let flow = match flow {
        QueueFlow::CreateQueue { ref name, .. } => {
            assert_eq!(name, "billing-prod");
            flow.on_create(CreateQueueReply::Created {
                url: Some("https://sqs.us-east-1.example/123456789012/billing-prod".to_string()),
            })
        }
        _ => panic!("expected CreateQueue"),
    };
    let flow = match flow {
        QueueFlow::FetchArn { .. } => flow.on_fetch(ServiceReply::Value {
            id: Some("arn:aws:sqs:us-east-1:123456789012:billing-prod".to_string()),
        }),
        _ => panic!("expected FetchArn"),
    };
    let record = match flow {
        QueueFlow::Done { record } => {
            outcomes.push(ProvisionOutcome::Success);
            record
        }
        _ => panic!("expected Done"),
    };
    assert_eq!(record.arn, "arn:aws:sqs:us-east-1:123456789012:billing-prod");

    // Then one subscription per topic, each against the queue's ARN.
    let mut seen_topics: Vec<String> = Vec::new();
    for (i, topic) in topics.iter().enumerate() {
        let topic_name = physical_name(topic, env);
        seen_topics.push(topic_name.clone());
        let topic_record = topic_created(ServiceReply::Value {
            id: Some(format!("arn:aws:sns:us-east-1:123456789012:{}", topic_name)),
        })
        .expect("topic ensured");
        let req = subscribe_request(&topic_record.arn, &record.arn);
        assert_eq!(req.protocol, "sqs");
        assert_eq!(req.endpoint, record.arn);
        let sub = subscription_created(ServiceReply::Value {
            id: Some(format!("{}:sub-{}", topic_record.arn, i)),
        })
        .expect("subscription ensured");
        assert!(sub.arn.starts_with("arn:aws:sns:us-east-1:123456789012:"));
        outcomes.push(ProvisionOutcome::Success);
    }
    assert_eq!(
        seen_topics,
        vec!["invoice-created-prod".to_string(), "invoice-paid-prod".to_string()]
    );

    // All four remote calls succeeded: the aggregate outcome is success.
    assert_eq!(outcomes.len(), 3);
    assert_eq!(count_failures(&outcomes), 0);
    assert_eq!(exit_code(count_failures(&outcomes), false), 0);
}

#[test]
fn queue_names_differing_in_case_are_distinct() {
    let config = config_of(vec![("billing", vec!["a"]), ("Billing", vec!["b"])]);
    assert_eq!(plan(&config).len(), 2);
}
