use magi_core::search::{
    context_from_answer, sidecar_error, TavilySearcher, DEFAULT_SIDECAR_URL, SIDECAR_HEADER,
    TAVILY_HEADER,
};

#[test]
fn the_searcher_defaults_to_the_local_sidecar() {
    let s = TavilySearcher::new(None, None);
    assert!(!s.uses_tavily());
    assert_eq!(s.sidecar_url, DEFAULT_SIDECAR_URL);
    assert_eq!(s.sidecar_url, "http://127.0.0.1:8001");
    let t = TavilySearcher::new(Some("k".to_string()), Some("http://side:9".to_string()));
    assert!(t.uses_tavily());
    assert_eq!(t.sidecar_url, "http://side:9");
}

#[test]
fn sidecar_queries_are_percent_encoded() {
    let s = TavilySearcher::new(None, None);
    assert_eq!(
        s.sidecar_query_url("rust pin & unpin"),
        "http://127.0.0.1:8001/search?q=rust%20pin%20%26%20unpin"
    );
}

#[test]
fn results_become_context_lines() {
    let body = r#"{"results":[{"title":"T","url":"U","content":"C"},{"title":7}]}"#;
    assert_eq!(
        context_from_answer(TAVILY_HEADER, body).unwrap(),
        "[LIVE WEB SEARCH RESULTS (TAVILY)]:\n- Title: T\n  URL: U\n  Summary: C\n\n- Title: No Title\n  URL: No URL\n  Summary: No Content\n\n"
    );
    assert_eq!(
        context_from_answer(SIDECAR_HEADER, r#"{"answer":"none"}"#).unwrap(),
        "[LIVE WEB SEARCH RESULTS (LOCAL SIDECAR)]:\n"
    );
    assert!(context_from_answer(SIDECAR_HEADER, "not json").is_none());
    assert_eq!(sidecar_error("500"), "Sidecar Error: 500");
}

#[test]
fn queries_are_percent_encoded_byte_by_byte() {
    let s = TavilySearcher::new(None, Some("http://s".to_string()));
    assert_eq!(s.sidecar_query_url("a ü~-._Z9"), "http://s/search?q=a%20%C3%BC~-._Z9");
    assert_eq!(s.sidecar_query_url("€/😀"), "http://s/search?q=%E2%82%AC%2F%F0%9F%98%80");
    assert_eq!(s.sidecar_query_url(""), "http://s/search?q=");
}
