pub mod archive;
pub mod artifact;
pub mod cli;
pub mod clock;
pub mod config;
pub mod dump;
pub mod errors;
pub mod listing;
pub mod naming;
pub mod orchestrate;
pub mod parse;
pub mod prune;
pub mod query;
pub mod remote;
pub mod resolve;
pub mod strings;
pub mod upload;
