//! Rendering the results of an agent's tools as bounded, tagged text, and the
//! decisions of the program around it.
//!
//! The core is in [`operation`]: a tool that ran is turned into one output
//! value and an entry in the ledger of file operations. It rests on the
//! element builder in [`element`] and on the three ways of cutting output
//! short: [`truncate_shell`], [`truncate_search`] and [`truncate_fetch`].
//! What other crates and the platform compute is reached through
//! [`platform`] alone; nothing is proved of it.

pub mod ansi;
pub mod attachment;
pub mod budget;
pub mod cache;
pub mod cli;
pub mod cli_grammar;
pub mod decimal;
pub mod domain;
pub mod element;
pub mod env_service;
pub mod file;
pub mod ipc;
pub mod lines;
pub mod markdown;
pub mod markdown_writer;
pub mod metrics;
pub mod numbering;
pub mod operation;
pub mod paths;
pub mod platform;
pub mod prompt;
pub mod release_matrix;
pub mod render_fs;
pub mod render_misc;
pub mod render_search;
pub mod server;
pub mod spinner;
pub mod startup;
pub mod state;
pub mod stream;
pub mod text_order;
pub mod truncate_fetch;
pub mod truncate_search;
pub mod truncate_shell;
pub mod update;
pub mod width;
