//! Command-line client logic for the Bodhi update service: field coercion,
//! the command model, request planning, batch override creation, credential
//! resolution and the text printed around results.

pub mod cli;
pub mod config;
pub mod converters;
pub mod credentials;
pub mod output;
pub mod overrides;
pub mod requests;

pub use cli::{BaseCommand, BodhiCommand, CommandKind, Format, Server};
pub use config::{FASConfig, FedoraConfig};
pub use converters::{
    op_str_to_op_content_type, op_str_to_op_date, op_str_to_op_karma, op_str_to_op_severity,
    op_str_to_op_update_request, op_str_to_op_update_status, op_str_to_op_update_suggestion,
    op_str_to_op_update_type, op_str_vec_to_op_release_vec, str_to_compose_request, ComposeRequest,
    ContentType, Karma, UpdateRequest, UpdateSeverity, UpdateStatus, UpdateSuggestion, UpdateType,
};
pub use credentials::{password_source, KeyringLookup, PasswordSource};
pub use output::server_message_lines;
pub use overrides::OverrideBatch;
pub use requests::{join_with_commas, requirements_field, update_source, BuildSource, QueryAction};
