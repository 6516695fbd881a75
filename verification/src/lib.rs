use vstd::prelude::*;

mod command;
mod format;
mod json;
mod model;
mod validate;

pub use command::Command;
pub use command::DiscordCommand;
pub use command::FormatCommand;
pub use command::KubeCommand;
pub use command::KubeLocalCommand;
pub use command::KubeRemoteCommand;
pub use command::SshCommand;
pub use command::TerminalCommand;
pub use command::TerminalOpenCodeCommand;
pub use command::action_for;
pub use command::action_of;
pub use format::GuildFormat;
pub use format::recognized;
pub use format::token_of;
pub use json::doc_format_field;
pub use json::doc_is_object;
pub use json::doc_version_field;
pub use json::document_of;
pub use json::json_parses;
pub use model::DocView;
pub use model::DocumentShape;
pub use model::ErrorView;
pub use model::FieldView;
pub use model::JsonField;
pub use model::SummaryView;
pub use model::ValidationError;
pub use model::ValidationSummary;
pub use model::outcome_view;
pub use validate::error_consistent;
pub use validate::evaluate;
pub use validate::format_accepted;
pub use validate::lemma_absent_fields_accepted;
pub use validate::lemma_declared_dump_accepted;
pub use validate::lemma_expected_dump_accepted;
pub use validate::lemma_format_not_string;
pub use validate::lemma_invalid_version;
pub use validate::lemma_mismatch_reported;
pub use validate::lemma_not_object;
pub use validate::lemma_upload_against_dump_mismatch;
pub use validate::lemma_validate_format_repeatable;
pub use validate::lemma_validate_spec_consistent;
pub use validate::lemma_validation_repeatable;
pub use validate::lemma_version_reported;
pub use validate::summary_consistent;
pub use validate::validate_format;
pub use validate::validate_spec;
pub use validate::version_field_ok;
pub use validate::version_step;
