//! What the command-line subcommands decide, apart from the files they read
//! and write.
pub mod doctor;
pub mod init;
pub mod listing;
pub mod lsp;
pub mod support;
