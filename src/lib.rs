//! Claiming and starting work on a GitHub issue bounty: the issue-reference
//! parser, the device-flow authentication poller and the bounty-start
//! workflow, each stated and proved as plain logic over values handed in by
//! the surrounding program.

pub mod auth;
pub mod config;
pub mod parse;
pub mod quest;
pub mod start;
pub mod text;

pub use auth::{AuthFailure, DeviceCode, Phase, TokenPoller, TokenReply, CLIENT_ID};
pub use config::{Config, ConfigError, Startup};
pub use parse::{ParseError, RepoIssue};
pub use quest::QuestIssue;
pub use start::{ErrorKind, Outcome, StartFlow, Step};



