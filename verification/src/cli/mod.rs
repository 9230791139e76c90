//! The command-line side of the framework: how a run is represented, its
//! framework flags, configuration overrides, the pager rule, and the emission
//! of a completed run.

pub mod setup_checks;
pub mod config;
pub mod config_claims;
pub mod default_command;
pub mod display_order;
pub mod dispatch;
pub mod emit;
pub mod flag_claims;
pub mod framework_args;
pub mod group;
pub mod handler;
pub mod help;
pub mod help_args;
pub mod help_listing;
pub mod help_source;
pub mod help_word;
pub mod mode;
pub mod pager;
pub mod presentation;
pub mod reachability;
pub mod representation;
pub mod run;
pub mod style_tags;
pub mod template_checks;
pub mod templates;
pub mod unparsed;

pub use representation::{ColorPolicy, Representation, TermColor, TermOutput, TermSettings};
