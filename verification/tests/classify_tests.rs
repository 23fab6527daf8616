use mailflow_api::classify::{determine_queue_type, QueueType};

#[test]
fn test_queue_type_detection() {
    let test_cases = vec![
        ("mailflow-app1", "inbound"),
        ("mailflow-app1-outbound", "outbound"),
        ("mailflow-app1-dlq", "dlq"),
        ("mailflow-DLQ-app2", "dlq"),
        ("dlq-mailflow-app3", "dlq"),
        ("outbound-queue", "outbound"),
    ];

    for (queue_name, expected_type) in test_cases {
        let queue_type = determine_queue_type(queue_name);
        assert_eq!(
            queue_type.as_str(),
            expected_type,
            "Failed for queue: {}",
            queue_name
        );
    }
}

#[test]
fn test_queue_type_case_insensitive() {
    let names = vec!["mailflow-app1-dlq", "outbound-queue", "mailflow-app1"];
    for name in names {
        let t = determine_queue_type(name);
        assert_eq!(t, determine_queue_type(&name.to_uppercase()));
        assert_eq!(t, determine_queue_type(&name.to_lowercase()));
    }
}

#[test]
fn test_queue_type_dlq_precedence() {
    assert_eq!(determine_queue_type("outbound-app-dlq"), QueueType::Dlq);
    assert_eq!(determine_queue_type("dlq-outbound-app"), QueueType::Dlq);
}

#[test]
fn test_queue_type_scenario_dlq() {
    assert_eq!(determine_queue_type("mailflow-app1-dlq"), QueueType::Dlq);
    assert_eq!(determine_queue_type("mailflow-app1-dlq").as_str(), "dlq");
}
