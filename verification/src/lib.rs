//! Named local Codex CLI authentication profiles: profile-name rules,
//! storage layout, command-line parsing and the decision logic of the
//! atomic credential copy, each with a verified contract.

pub mod name;
pub mod strings;
pub mod error;
pub mod paths;
pub mod auth;
pub mod cli;
pub mod copy;
pub mod listing;
pub mod commands;
pub mod text;

pub use cli::{require_no_more_args, run};
pub use name::validate_name;
pub use paths::{active_auth, codex_home, expand_user, profile_auth, profile_root};
