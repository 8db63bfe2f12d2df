use magi_core::http::{execution_error_event, history_key, ChatRequest};
use magi_core::vectors::{feedback_targets, i64_to_dec, QueryVectorDb, SessionVectorDb, VectorStore};

#[test]
fn stored_chunks_are_named_by_source_and_time() {
    let mut v = VectorStore::new();
    v.ingest("text", "Manual Injection", vec![1, 2, 3], 1_700_000_000_123, 1_700_000_000);
    assert_eq!(v.count(), 1);
    let c = &v.chunks()[0];
    assert_eq!(c.id, "Manual Injection:1700000000123");
    assert_eq!(c.text, "text");
    assert_eq!(c.source, "Manual Injection");
    assert_eq!(c.embedding, vec![1, 2, 3]);
    assert_eq!(c.timestamp, 1_700_000_000);
    v.clear();
    assert_eq!(v.count(), 0);
}

#[test]
fn searches_keep_the_best_that_pass() {
    let mut q = QueryVectorDb::new();
    for i in 0..4 {
        q.ingest(&format!("t{}", i), "src", vec![], i, i);
    }
    let keys = vec![3, 8, 8, 1];
    let passes = vec![true, true, true, false];
    assert_eq!(q.search(&keys, &passes, false, 2), vec![1, 2]);
    assert_eq!(q.search(&keys, &passes, false, 10), vec![1, 2, 0]);
    assert_eq!(q.search(&keys, &passes, true, 10), Vec::<usize>::new());
    assert_eq!(q.count(), 4);
    q.clear();
    assert_eq!(q.count(), 0);
    let s = SessionVectorDb::new();
    assert_eq!(s.count(), 0);
    assert_eq!(s.search(&vec![], &vec![], false, 3), Vec::<usize>::new());
}

#[test]
fn feedback_reaches_the_chunks_that_hold_the_comment() {
    let texts = vec!["alpha beta".to_string(), "gamma".to_string(), "beta".to_string()];
    assert_eq!(feedback_targets(&texts, "beta"), vec![0, 2]);
    assert_eq!(feedback_targets(&texts, ""), Vec::<usize>::new());
    assert_eq!(feedback_targets(&texts, "delta"), Vec::<usize>::new());
}

#[test]
fn numbers_and_keys_are_written_in_decimal() {
    assert_eq!(i64_to_dec(0), "0");
    assert_eq!(i64_to_dec(-42), "-42");
    assert_eq!(i64_to_dec(i64::MIN), "-9223372036854775808");
    assert_eq!(history_key("s", 5), "s:5");
    let r = ChatRequest { query: "q".to_string(), session_id: None };
    assert_eq!(r.session(1700000000), "session-1700000000");
    let named = ChatRequest { query: "q".to_string(), session_id: Some("abc".to_string()) };
    assert_eq!(named.session(1), "abc");
    assert_eq!(execution_error_event("e"), "MAGI Execution Error: e");
}
