//! Verified core of the dispatcher store: how messages render and reach the
//! model, how settings and model configurations are normalised and read
//! back, the tool-run lifecycle and its completion outbox, token usage,
//! keywords and search, truncation for regeneration, retry compaction, the
//! project list, chat categories, the DWG viewer session registry and the
//! debug log's entries.
pub mod text;
pub mod json_text;
pub mod stamps;
pub mod contract;
pub mod content;
pub mod model_config;
pub mod settings_record;
pub mod settings;
pub mod sessions;
pub mod runtime_state;
pub mod token_usage;
pub mod tool_runs;
pub mod artifacts;
pub mod tool_completions;
pub mod messages;
pub mod llm_history;
pub mod truncation;
pub mod retry_compaction;
pub mod keywords;
pub mod categories;
pub mod projects;
pub mod python_runs;
pub mod session_summaries;
pub mod schema;
pub mod viewer_sessions;
pub mod debug_log;
