//! A library for declaring a tree of command-line commands and resolving a
//! raw argument list against that tree into a single structured intent,
//! which is handed to a per-command resolver for execution.

pub mod command;
pub mod command_handler;
pub mod command_summary;
pub mod context;
pub mod error;
pub mod error_kind;
pub mod errors;
pub mod flag;
pub mod flag_summary;
pub mod intent;
pub mod laws;
pub mod model;
pub mod param;
pub mod param_summary;
pub mod resolver;
pub mod resource;
pub mod resource_data;
pub mod resource_summary;
pub mod text;
pub mod utils;

pub use command::Command;
pub use command_handler::CommandHandler;
pub use command_summary::CommandSummary;
pub use context::Context;
pub use error::Error;
pub use error_kind::ErrorKind;
pub use errors::ErrorCode;
pub use flag::Flag;
pub use flag_summary::FlagSummary;
pub use intent::Intent;
pub use param::Param;
pub use param_summary::ParamSummary;
pub use resolver::Resolver;
pub use resource::Resource;
pub use resource_data::ResourceData;
pub use resource_summary::ResourceSummary;
pub use utils::build_command_summary;
pub use utils::build_flag_summaries;
pub use utils::build_flag_summary;
pub use utils::build_param_summaries;
pub use utils::build_param_summary;
pub use utils::build_resource_summaries;
pub use utils::build_resource_summary;
pub use utils::build_subcommand_positions;
pub use utils::build_subcommand_summaries;
pub use utils::build_supcommand_summaries;
pub use utils::split_equal_args;
pub use utils::subcommand_at_position;
