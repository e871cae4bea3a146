//! Clipboard code runner: a verified model of a multi-language execution
//! pipeline. Source text is classified by language, staged into an ephemeral
//! workspace, compiled or interpreted by the matching toolchain, and the
//! captured outcome is delivered to the caller's streams or the clipboard.
//!
//! The library holds the decision logic: the language registry, entry-point
//! name derivation, the execution driver's state machine, the result sink,
//! and the plain text operations (literal replacement, case transforms).
//! The host process performs the actual I/O (clipboard, files, child
//! processes) and feeds the observed events back into the driver.
mod chars;
mod cli;
mod driver;
mod entry;
mod errors;
mod format;
mod registry;
mod replace;
mod sink;
mod transform;

pub use chars::chars_of;
pub use chars::is_space_char;
pub use chars::is_word_char;
pub use chars::push_all;
pub use chars::space_char;
pub use chars::subvec;
pub use chars::word_char;

pub use cli::ExecOptionsModel;
pub use cli::ExecuteOptions;
pub use cli::parse_exec_model;
pub use cli::parse_execute_args;
pub use cli::parse_format_args;
pub use cli::parse_format_model;

pub use driver::ActionModel;
pub use driver::CommandModel;
pub use driver::CommandSpec;
pub use driver::Driver;
pub use driver::DriverAction;
pub use driver::DriverEvent;
pub use driver::DriverModel;
pub use driver::EventModel;
pub use driver::ExecutionOutcome;
pub use driver::ExecutionRequest;
pub use driver::OutcomeModel;
pub use driver::Phase;
pub use driver::RequestModel;
pub use driver::begin;
pub use driver::begin_model;
pub use driver::driver_init_model;
pub use driver::exe_path_model;
pub use driver::first_command_model;
pub use driver::holds_workspace_phase;
pub use driver::lemma_begin_establishes_inv;
pub use driver::lemma_cleanup_on_every_exit;
pub use driver::lemma_compile_failure_short_circuits;
pub use driver::lemma_finished_accepts_nothing;
pub use driver::lemma_named_entry_needs_name;
pub use driver::lemma_no_entry_name_fails_first;
pub use driver::lemma_step_preserves_inv;
pub use driver::lemma_unsupported_language_fails_first;
pub use driver::next_step;
pub use driver::run_command_model;
pub use driver::run_program_model;
pub use driver::source_path_model;
pub use driver::staged_name_model;
pub use driver::workspace_inv;

pub use entry::decl_at;
pub use entry::derive_entry_name;
pub use entry::entry_name_model;
pub use entry::first_decl_from;
pub use entry::lemma_entry_name_absent;
pub use entry::lemma_entry_name_of_declaration;
pub use entry::lit_class;
pub use entry::lit_public;
pub use entry::space_run_end;
pub use entry::word_run_end;

pub use errors::ErrorModel;
pub use errors::ExecError;

pub use format::FormatPlan;
pub use format::FormatPlanModel;
pub use format::finish_format;
pub use format::finish_format_model;
pub use format::format_plan;
pub use format::format_plan_model;

pub use registry::LanguageProfile;
pub use registry::ProfileModel;
pub use registry::Strategy;
pub use registry::lemma_registry_well_formed;
pub use registry::resolve;
pub use registry::resolve_model;
pub use registry::supported_language;

pub use replace::replace_literal;
pub use replace::replace_model;

pub use sink::Delivery;
pub use sink::DeliveryModel;
pub use sink::delivery_model;
pub use sink::plan_delivery;

pub use transform::TransformKind;
pub use transform::apply_transform;
pub use transform::char_upper_model;
pub use transform::join_with_spaces;
pub use transform::lemma_words_nonempty;
pub use transform::lower_model;
pub use transform::parse_transform;
pub use transform::title_case;
pub use transform::title_model;
pub use transform::title_word_model;
pub use transform::transform_kind_model;
pub use transform::transform_model;
pub use transform::upper_model;
pub use transform::words_of;
