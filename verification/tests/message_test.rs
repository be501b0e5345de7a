use numaflow_reduce::message::Message;

#[test]
fn message_new_has_value_only() {
    let message = Message::new(vec![1, 2, 3, 4]);
    assert_eq!(message.value, vec![1, 2, 3, 4]);
    assert!(message.keys.is_none());
    assert!(message.tags.is_none());
}

#[test]
fn message_builders_set_fields() {
    let message = Message::new(vec![1, 2, 3])
        .keys(vec!["key1".to_string(), "key2".to_string()])
        .tags(vec!["tag1".to_string(), "tag2".to_string()])
        .value(vec![4, 5, 6]);
    assert_eq!(
        message.keys,
        Some(vec!["key1".to_string(), "key2".to_string()])
    );
    assert_eq!(
        message.tags,
        Some(vec!["tag1".to_string(), "tag2".to_string()])
    );
    assert_eq!(message.value, vec![4, 5, 6]);
}

#[test]
fn message_to_drop_carries_only_the_drop_tag() {
    let dropped = Message::message_to_drop();
    assert!(dropped.keys.is_none());
    assert!(dropped.value.is_empty());
    assert_eq!(dropped.tags, Some(vec!["U+005C__DROP__".to_string()]));
}
