# magi_core

The verified core of the MAGI multi-agent orchestration engine, written in
Verus. The functions in `src/` carry contracts that Verus proves, but for
the few small wrappers marked `#[verifier::external_body]` that call
`serde_json`, `regex`, `urlencoding`, `tokenizers`, `candle` or a `String`
method: their contracts are trusted, not proved, and their doc comments
say what they claim of the call. The program around the library (`app/`) does the HTTP serving, model inference, disk
and network work, and hands the results to the library.

Layout:

- `src/text.rs`, `src/lines.rs`: strings, trimming, joining, decimal
  numerals, UTF-8 lengths, line splitting.
- `src/json.rs`, `src/patterns.rs`: the JSON reads and regular-expression
  searches the library makes, through `serde_json` and `regex`.
- `src/chunking.rs`, `src/markdown.rs`: whitespace normalisation,
  overlapping character windows, Markdown sections by heading.
- `src/ranking.rs`: the best `k` scored candidates, stable.
- `src/domain.rs`, `src/pii.rs`: the domain model and personal-data masking.
- `src/workflow.rs`, `src/consensus.rs`: the orchestrator's phases, what
  each phase writes into the agent state, MemFlow, retries, and the
  adversarial consensus loop.
- `src/resources.rs`, `src/engines.rs`, `src/generation.rs`: the engine
  cache (least recently used first out), the native engines, prompts and
  token streams of model servers, and the local token loop.
- `src/search.rs`, `src/config.rs`, `src/vectors.rs`, `src/http.rs`,
  `src/doc.rs`: web search answers, configuration, vector stores, HTTP
  requests, and the requirements document layout.
- `src/elite.rs`: the native agent's workflow and knowledge base.
- `tests/`: tests of the library; `app/`: the server and its tools.
