//! Verified core of the AWP Community Worknet agent CLI: text shaping for
//! what the CLI shows, keyring naming rules, wallet address and key
//! handling, request construction and the decisions each command makes.

pub mod text;
pub mod order;
pub mod keyring;
pub mod wallet;
pub mod output;
pub mod client;
pub mod cmd;
