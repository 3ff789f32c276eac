//! Decision core of a chat agent.

pub mod text;
pub mod json;
pub mod chat;
pub mod session;
pub mod submission;
pub mod images;
pub mod message;
pub mod notify;
pub mod outcome;
pub mod notice;
pub mod auth;
pub mod ids;
pub mod agentic;
pub mod turn;
pub mod compaction;
pub mod approval;
pub mod intake;
pub mod clock;
pub mod dispatch;
pub mod thread_ops;
pub mod store;
pub mod tool;
pub mod prompt;
pub mod flush;
pub mod documents;
pub mod commands;
pub mod jobs;
pub mod repair;
pub mod skills;
pub mod scope;
pub mod user_turn;
pub mod approval_run;
