//! Node selection, health tracking and retry decisions for a client of a
//! multi-node search cluster, with the configuration and schema builders
//! that sit on top of them.

mod address;
mod api_call;
mod client;
mod configuration;
mod field;
mod node;
mod retry;

pub use address::parsed_url;
pub use api_call::{
    first_unparsed, lemma_reprobe_after_interval, lemma_selection_prefers_eligible, nodes_error,
    set_node_health_spec, APICall, ConfigError, Target, DEFAULT_HEALTH_CHECK_INTERVAL,
    DEFAULT_NUM_RETRIES, DEFAULT_RETRY_INTERVAL,
};
pub use client::TypesenseClient;
pub use configuration::{default_user_agent, ApiKey, BasicAuth, Configuration};
pub use field::{Field, FieldBuilder, FieldType};
pub use node::{due_for_health_check, eligible, set_node_health, Node};
pub use retry::{
    attempts_made, is_server_error, is_success, lemma_attempts_within_budget,
    lemma_no_retries_single_attempt, step_after, LogicalCall, Outcome, Step,
};
