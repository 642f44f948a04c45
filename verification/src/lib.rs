//! A verified core for an interactive coding assistant: prompt building, model
//! selection, the tool-calling loop and the command interpreter.

pub mod text;
pub mod context;
pub mod models;
pub mod message;
pub mod agent;
pub mod session;
pub mod jj;
pub mod shell;
pub mod listing;
pub mod gather;
pub mod run;
pub mod job;
pub mod repl;
pub mod reasoner;
pub mod laws;
pub mod inputs;
pub mod flows;
