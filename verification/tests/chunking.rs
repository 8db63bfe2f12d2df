use magi_core::chunking::{chunk_text, normalize_text};
use magi_core::ranking::rank_top_k;

#[test]
fn normalize_collapses_whitespace() {
    assert_eq!(normalize_text("  a\n b\t\tc  "), "a b c");
    assert_eq!(normalize_text("one\ntwo"), "one two");
    assert_eq!(normalize_text(" \n\t "), "");
    assert_eq!(normalize_text(""), "");
}

#[test]
fn chunks_overlap_by_the_overlap() {
    assert_eq!(chunk_text("abcdef", 4, 2), vec!["abcd".to_string(), "cdef".to_string()]);
    assert_eq!(
        chunk_text("abcdefg", 3, 1),
        vec!["abc".to_string(), "cde".to_string(), "efg".to_string()]
    );
}

#[test]
fn chunking_edge_cases() {
    assert!(chunk_text("", 3, 1).is_empty());
    // An overlap at least as large as the chunk moves one character at a time.
    assert_eq!(chunk_text("abc", 2, 5), vec!["ab".to_string(), "bc".to_string()]);
    // Characters, not bytes.
    assert_eq!(chunk_text("가나다", 2, 0), vec!["가나".to_string(), "다".to_string()]);
}

#[test]
fn chunks_reassemble_the_text_without_overlap() {
    let text = "the quick brown fox";
    let chunks = chunk_text(text, 5, 0);
    assert_eq!(chunks.concat(), text);
}

#[test]
fn ranking_keeps_the_best_in_order() {
    let keys = vec![5, 9, 5, 1];
    let admitted = vec![true, true, true, false];
    assert_eq!(rank_top_k(&keys, &admitted, 3), vec![1, 0, 2]);
    assert_eq!(rank_top_k(&keys, &admitted, 2), vec![1, 0]);
    assert_eq!(rank_top_k(&keys, &admitted, 0), Vec::<usize>::new());
    assert_eq!(rank_top_k(&keys, &vec![false; 4], 3), Vec::<usize>::new());
}

#[test]
fn normalizing_twice_changes_nothing_more() {
    for t in ["  a\n b\t\tc  ", "x\u{00A0}\u{2003}y\n\nz", "", " \t ", "word"] {
        let once = normalize_text(t);
        assert_eq!(normalize_text(&once), once);
    }
    assert_eq!(normalize_text("x\u{00A0}\u{2003}y\n\nz"), "x y z");
}
