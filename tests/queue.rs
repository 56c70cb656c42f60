use engine::{greet, CommentQueue};

#[test]
fn fifo_drain_yields_texts_in_order() {
    let mut q = CommentQueue::new();
    let texts = ["first", "second", "third", "fourth"];
    for (i, t) in texts.iter().enumerate() {
        q.add_comment(i as i32, format!("author{}", i), t.to_string());
    }
    for t in texts.iter() {
        assert_eq!(q.pop_next_text(), Some(t.to_string()));
    }
    assert_eq!(q.pop_next_text(), None);
}

#[test]
fn fresh_queue_pops_nothing() {
    let mut q = CommentQueue::new();
    assert_eq!(q.pop_next_text(), None);
    assert_eq!(q.pop_next_text(), None);
}

#[test]
fn drained_queue_stays_empty() {
    let mut q = CommentQueue::new();
    q.add_comment(7, "x".to_string(), "a".to_string());
    q.add_comment(8, "y".to_string(), "b".to_string());
    assert_eq!(q.pop_next_text(), Some("a".to_string()));
    assert_eq!(q.pop_next_text(), Some("b".to_string()));
    assert_eq!(q.pop_next_text(), None);
    assert_eq!(q.pop_next_text(), None);
    assert_eq!(q.pop_next_text(), None);
}

#[test]
fn interleaved_adds_and_pops_keep_order() {
    let mut q = CommentQueue::new();
    q.add_comment(1, "u".to_string(), "A".to_string());
    q.add_comment(2, "u".to_string(), "B".to_string());
    assert_eq!(q.pop_next_text(), Some("A".to_string()));
    q.add_comment(3, "u".to_string(), "C".to_string());
    assert_eq!(q.pop_next_text(), Some("B".to_string()));
    assert_eq!(q.pop_next_text(), Some("C".to_string()));
    assert_eq!(q.pop_next_text(), None);
}

#[test]
fn add_accepts_empty_strings_and_any_id() {
    let mut q = CommentQueue::new();
    q.add_comment(0, String::new(), String::new());
    q.add_comment(-1, String::new(), "neg".to_string());
    q.add_comment(i32::MIN, "a".to_string(), "min".to_string());
    q.add_comment(i32::MAX, String::new(), "max".to_string());
    q.add_comment(5, "dup".to_string(), String::new());
    q.add_comment(5, "dup".to_string(), "same id".to_string());
    assert_eq!(q.pop_next_text(), Some(String::new()));
    assert_eq!(q.pop_next_text(), Some("neg".to_string()));
    assert_eq!(q.pop_next_text(), Some("min".to_string()));
    assert_eq!(q.pop_next_text(), Some("max".to_string()));
    assert_eq!(q.pop_next_text(), Some(String::new()));
    assert_eq!(q.pop_next_text(), Some("same id".to_string()));
    assert_eq!(q.pop_next_text(), None);
}

#[test]
fn pop_returns_text_not_author() {
    let mut q = CommentQueue::new();
    q.add_comment(42, "someone".to_string(), "body".to_string());
    assert_eq!(q.pop_next_text(), Some("body".to_string()));
}

#[test]
fn two_comments_scenario() {
    let mut q = CommentQueue::new();
    q.add_comment(1, "alice".to_string(), "hi".to_string());
    q.add_comment(2, "bob".to_string(), "yo".to_string());
    assert_eq!(q.pop_next_text(), Some("hi".to_string()));
    assert_eq!(q.pop_next_text(), Some("yo".to_string()));
    assert_eq!(q.pop_next_text(), None);
}

#[test]
fn greet_world_exact() {
    let g = greet("World");
    assert!(g.starts_with("Hello, World!"));
    assert_eq!(g, "Hello, World! RustのWasmエンジンからの返答です。");
    assert_eq!(greet("World"), g);
}

#[test]
fn greet_empty_and_non_ascii_names() {
    assert_eq!(greet(""), "Hello, ! RustのWasmエンジンからの返答です。");
    assert_eq!(greet("世界"), "Hello, 世界! RustのWasmエンジンからの返答です。");
}
