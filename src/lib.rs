//! Node agent library: the decisions, parsers and command builders behind
//! the agent's bootstrap sequence and its authenticated request handlers.

pub mod auth;
pub mod bootstrap;
pub mod consts;
pub mod dep_utils;
pub mod diagnostics;
pub mod docker_utils;
pub mod global_state;
pub mod handlers;
pub mod identity;
pub mod ngrok_utils;
pub mod proj_utils;
pub mod purge;
pub mod text;
pub mod tls_utils;
