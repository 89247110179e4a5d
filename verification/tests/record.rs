use solana_twitter::required_storage_size;
use solana_twitter::send_tweet;
use solana_twitter::ErrorCode;

const AUTHOR: [u8; 32] = [7u8; 32];

#[test]
fn send_tweet_success_concrete() {
    let r = send_tweet("solana".to_string(), "gm".to_string(), AUTHOR, 1000);
    let t = r.expect("a short topic and body must be accepted");
    assert_eq!(t.author, AUTHOR);
    assert_eq!(t.timestamp, 1000);
    assert_eq!(t.topic, "solana");
    assert_eq!(t.content, "gm");
}

#[test]
fn empty_texts_accepted() {
    let r = send_tweet(String::new(), String::new(), AUTHOR, 0);
    let t = r.expect("empty texts are within both bounds");
    assert_eq!(t.topic, "");
    assert_eq!(t.content, "");
}

#[test]
fn topic_of_51_rejected() {
    let r = send_tweet("x".repeat(51), "ok".to_string(), AUTHOR, 1000);
    assert!(matches!(r, Err(ErrorCode::TopicTooLong)));
}

#[test]
fn topic_of_51_rejected_regardless_of_body() {
    let r = send_tweet("x".repeat(51), String::new(), AUTHOR, 1000);
    assert!(matches!(r, Err(ErrorCode::TopicTooLong)));
    let r = send_tweet("x".repeat(51), "y".repeat(280), AUTHOR, 1000);
    assert!(matches!(r, Err(ErrorCode::TopicTooLong)));
}

#[test]
fn content_of_281_rejected() {
    let r = send_tweet("ok".to_string(), "y".repeat(281), AUTHOR, 1000);
    assert!(matches!(r, Err(ErrorCode::ContentTooLong)));
}

#[test]
fn content_of_281_rejected_for_any_valid_topic() {
    let r = send_tweet(String::new(), "y".repeat(281), AUTHOR, 1000);
    assert!(matches!(r, Err(ErrorCode::ContentTooLong)));
    let r = send_tweet("x".repeat(50), "y".repeat(281), AUTHOR, 1000);
    assert!(matches!(r, Err(ErrorCode::ContentTooLong)));
}

#[test]
fn both_over_bounds_reports_topic_first() {
    let r = send_tweet("x".repeat(51), "y".repeat(281), AUTHOR, 1000);
    assert!(matches!(r, Err(ErrorCode::TopicTooLong)));
}

#[test]
fn exact_boundaries_accepted() {
    let topic = "x".repeat(50);
    let content = "y".repeat(280);
    let r = send_tweet(topic.clone(), content.clone(), AUTHOR, 42);
    let t = r.expect("texts exactly at the bounds must be accepted");
    assert_eq!(t.topic, topic);
    assert_eq!(t.content, content);
}

#[test]
fn required_storage_size_is_the_fixed_formula() {
    assert_eq!(required_storage_size(), 8 + 32 + 8 + 4 + 50 * 4 + 4 + 280 * 4);
    assert_eq!(required_storage_size(), 1376);
    assert_eq!(required_storage_size(), required_storage_size());
}

#[test]
fn multibyte_topic_of_50_chars_accepted() {
    // A musical clef takes the full four bytes in UTF-8.
    let topic = "\u{1D11E}".repeat(50);
    assert_eq!(topic.chars().count(), 50);
    assert_eq!(topic.len(), 200);
    let content = "gm".to_string();
    let topic_bytes = topic.len();
    let content_bytes = content.len();
    let t = send_tweet(topic.clone(), content, AUTHOR, 1000)
        .expect("the bound counts characters, not bytes");
    assert_eq!(t.topic, topic);
    // The serialized record still fits the worst-case reservation.
    let serialized = 8 + 32 + 8 + 4 + topic_bytes + 4 + content_bytes;
    assert!(serialized <= required_storage_size());
}

#[test]
fn multibyte_body_of_280_chars_accepted() {
    let content = "\u{1D11E}".repeat(280);
    assert_eq!(content.chars().count(), 280);
    assert_eq!(content.len(), 1120);
    let topic_bytes = "ok".len();
    let content_bytes = content.len();
    let t = send_tweet("ok".to_string(), content, AUTHOR, 1000)
        .expect("the bound counts characters, not bytes");
    assert_eq!(t.content.chars().count(), 280);
    let serialized = 8 + 32 + 8 + 4 + topic_bytes + 4 + content_bytes;
    assert!(serialized <= required_storage_size());
}

#[test]
fn multibyte_topic_of_51_chars_rejected() {
    let topic = "\u{1D11E}".repeat(51);
    let r = send_tweet(topic, "gm".to_string(), AUTHOR, 1000);
    assert!(matches!(r, Err(ErrorCode::TopicTooLong)));
}

#[test]
fn identical_texts_different_time_give_distinct_records() {
    let a = send_tweet("gm".to_string(), "gm".to_string(), AUTHOR, 1000).unwrap();
    let b = send_tweet("gm".to_string(), "gm".to_string(), AUTHOR, 2000).unwrap();
    assert_ne!(a.timestamp, b.timestamp);
}

#[test]
fn identical_texts_different_author_give_distinct_records() {
    let other: [u8; 32] = [9u8; 32];
    let a = send_tweet("gm".to_string(), "gm".to_string(), AUTHOR, 1000).unwrap();
    let b = send_tweet("gm".to_string(), "gm".to_string(), other, 1000).unwrap();
    assert_ne!(a.author, b.author);
}

#[test]
fn error_messages_name_the_violated_bound() {
    assert_eq!(ErrorCode::TopicTooLong.message(), "Topic length can't be more than 50");
    assert_eq!(ErrorCode::ContentTooLong.message(), "Content length can't be more than 280");
    let e = send_tweet("x".repeat(51), String::new(), AUTHOR, 0).unwrap_err();
    assert_eq!(e.message(), "Topic length can't be more than 50");
}
