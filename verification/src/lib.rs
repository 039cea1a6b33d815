//! Verified core of a paper reading assistant: text handling, the workflow
//! state machine, model output normalisation, and request validation.
pub mod text;
pub mod error;
pub mod workflow;
pub mod json;
pub mod agent_output;
pub mod arxiv;
pub mod model_api;
pub mod prompts;
pub mod library;
pub mod paths;
pub mod github;
pub mod profile;
pub mod paper;
pub mod parsing;
pub mod runs;
pub mod model_config;
pub mod migrations;
pub mod feed;
pub mod feed_reader;
pub mod timestamp;
