//! The decisions behind a policy command line client, proved correct.

pub mod arg;
pub mod args;
pub mod command;
pub mod digest;
pub mod failure;
pub mod files;
pub mod flags;
pub mod fulcio;
pub mod inspect;
pub mod output;
pub mod pull;
pub mod push;
pub mod remote;
pub mod run;
pub mod scaffold;
pub mod settings;
pub mod signature;
pub mod table;
pub mod text;
pub mod verification;
pub mod verify;
