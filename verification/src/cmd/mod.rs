//! What each command decides: request paths and bodies' inputs, local
//! validation, and the output it prints for each outcome.

pub mod epoch;
pub mod feed;
pub mod post;
pub mod reply;
pub mod vote;
pub mod me;
pub mod status;
pub mod claim_info;
pub mod contribute;
pub mod agent_view;
pub mod keys;
pub mod use_key;
pub mod earnings;
pub mod opportunities;
pub mod briefing;
pub mod smoke_test;
pub mod bootstrap;
pub mod register;
pub mod awp_register_cmd;
