use newsboy::component::pubsub::PubsubEvent;
use newsboy::gcp::models::{PubsubMessage, SubscriptionInfo, TopicInfo};
use newsboy::gcp::{into_event, GcpMsg};
use newsboy::ui::header::split_vec_into_n;

#[test]
fn a_report_of_topics_becomes_an_event() {
    let list = vec![TopicInfo { name: "b".to_string() }, TopicInfo { name: "a".to_string() }];
    match into_event(GcpMsg::Topics(list)) {
        Some(PubsubEvent::GotTopics(topics)) => {
            let names: Vec<&str> = topics.iter().map(|t| t.name.as_str()).collect();
            assert_eq!(names, vec!["b", "a"]);
        }
        _ => panic!("topics are passed on as they came"),
    }
}

#[test]
fn other_reports_become_no_event() {
    let subs = vec![SubscriptionInfo { name: "s".to_string() }];
    assert!(into_event(GcpMsg::Subscriptions(subs)).is_none());
    let messages = vec![PubsubMessage { data: "d".to_string(), ack_id: "1".to_string() }];
    assert!(into_event(GcpMsg::Messages(messages)).is_none());
}

#[test]
fn help_entries_are_dealt_into_columns() {
    let entries = vec![1, 2, 3, 4, 5, 6, 7];
    assert_eq!(split_vec_into_n(entries.clone(), 3), vec![vec![1, 2, 3], vec![4, 5, 6], vec![7]]);
    assert_eq!(split_vec_into_n(entries.clone(), 1), vec![entries.clone()]);
    assert_eq!(
        split_vec_into_n(entries.clone(), 4),
        vec![vec![1, 2], vec![3, 4], vec![5, 6], vec![7]]
    );
    assert_eq!(
        split_vec_into_n(vec![1, 2], 3),
        vec![vec![1], vec![2], vec![]]
    );
    assert_eq!(
        split_vec_into_n(vec![1, 2, 3, 4], 3),
        vec![vec![1, 2], vec![3, 4], vec![]]
    );
    let none: Vec<u8> = Vec::new();
    assert_eq!(split_vec_into_n(none, 2), vec![Vec::<u8>::new(), Vec::new()]);
}
