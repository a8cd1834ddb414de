//! Core of a terminal client for JIRA issue tracking: the data model of
//! issues, the conversion of API replies into that model, the requests the
//! client sends, the text the interface shows and the state machine that the
//! keyboard drives.

pub mod text;
pub mod issue;
pub mod adf;
pub mod jira;
pub mod config;
pub mod recency;
pub mod app;
pub mod display;
pub mod laws;
