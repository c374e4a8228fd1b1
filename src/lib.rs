//! A runtime for an autonomous coding agent: tool contracts and claims, the
//! shell tool's decisions, remote tool clients, the OAuth sign-in steps and
//! the orchestration loop, each stated and proved with Verus.

pub mod agent;
pub mod bash;
pub mod capability;
pub mod cmdnav;
pub mod config;
pub mod filenav;
pub mod headless;
pub mod helper;
pub mod json;
pub mod ls;
pub mod mcp;
pub mod oauth;
pub mod prompt;
pub mod session;
pub mod shell;
pub mod text;
pub mod tool;
pub mod toolset;
