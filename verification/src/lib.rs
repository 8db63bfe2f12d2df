//! The verified core of the MAGI multi-agent orchestration engine and of
//! its native agent: the workflow's state machines and the state each
//! phase writes, the adversarial consensus protocol, the engine cache,
//! personal-data masking, Markdown and text chunking, ranking of scored
//! candidates, the reading of model token streams and search answers, and
//! the texts the engine produces. Model calls, network, disk and floating
//! point are left to the caller, which hands their results in.
pub mod text;
pub mod lines;
pub mod json;
pub mod patterns;
pub mod chunking;
pub mod ranking;
pub mod domain;
pub mod pii;
pub mod markdown;
pub mod consensus;
pub mod workflow;
pub mod resources;
pub mod engines;
pub mod generation;
pub mod search;
pub mod config;
pub mod vectors;
pub mod http;
pub mod doc;
pub mod elite;
