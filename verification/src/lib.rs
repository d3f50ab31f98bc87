//! Policy evaluation for free-form text: banned phrases, risk triggers and
//! the intent statement that risky text must carry.

pub mod chars;
pub mod cli;
pub mod config;
pub mod extract;
pub mod hooks;
pub mod journal;
pub mod laws;
pub mod llm;
pub mod policy;
pub mod report;
pub mod text;
