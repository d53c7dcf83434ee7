use v2ex_tui::model::Reply;
use v2ex_tui::threader::{count_replies_to, thread_replies};

fn reply(author: &str, reply_to: &str) -> Reply {
    Reply {
        author: author.to_string(),
        time: String::new(),
        content: String::new(),
        number: String::new(),
        reply_to: reply_to.to_string(),
        reply_count: 0,
    }
}

fn counts(replies: &[Reply]) -> Vec<usize> {
    replies.iter().map(|r| r.reply_count).collect()
}

#[test]
fn replies_to_one_author_are_counted() {
    let mut replies = vec![reply("bob", ""), reply("carol", "bob"), reply("dave", "bob")];
    thread_replies(&mut replies);
    assert_eq!(counts(&replies), vec![2, 0, 0]);
}

#[test]
fn threading_leaves_the_other_fields() {
    let mut replies = vec![reply("bob", "carol"), reply("carol", "bob")];
    replies[0].content = "@carol hi".to_string();
    replies[0].time = "1 小时前".to_string();
    replies[0].number = "1".to_string();
    let before = replies.clone();
    thread_replies(&mut replies);
    assert_eq!(replies.len(), 2);
    for (after, before) in replies.iter().zip(before.iter()) {
        assert_eq!(after.author, before.author);
        assert_eq!(after.time, before.time);
        assert_eq!(after.content, before.content);
        assert_eq!(after.number, before.number);
        assert_eq!(after.reply_to, before.reply_to);
    }
    assert_eq!(counts(&replies), vec![1, 1]);
}

#[test]
fn threading_twice_gives_the_same_counts() {
    let mut replies = vec![
        reply("a", "b"),
        reply("b", "a"),
        reply("a", ""),
        reply("c", "a"),
        reply("", ""),
    ];
    thread_replies(&mut replies);
    let once = replies.clone();
    thread_replies(&mut replies);
    assert_eq!(replies, once);
    assert_eq!(counts(&replies), vec![2, 1, 2, 0, 2]);
}

#[test]
fn threading_overwrites_stale_counts() {
    let mut replies = vec![reply("a", ""), reply("b", "")];
    replies[0].reply_count = 7;
    replies[1].reply_count = 9;
    thread_replies(&mut replies);
    assert_eq!(counts(&replies), vec![0, 0]);
}

#[test]
fn a_reply_to_oneself_counts() {
    let mut replies = vec![reply("a", "a")];
    thread_replies(&mut replies);
    assert_eq!(counts(&replies), vec![1]);
}

#[test]
fn an_empty_list_stays_empty() {
    let mut replies: Vec<Reply> = Vec::new();
    thread_replies(&mut replies);
    assert!(replies.is_empty());
}

#[test]
fn count_replies_to_counts_one_name() {
    let replies = vec![reply("x", "bob"), reply("y", "Bob"), reply("z", "bob")];
    assert_eq!(count_replies_to(&replies, &"bob".to_string()), 2);
    assert_eq!(count_replies_to(&replies, &"Bob".to_string()), 1);
    assert_eq!(count_replies_to(&replies, &"".to_string()), 0);
}
