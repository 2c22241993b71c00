pub mod agent_assets;
pub mod agents;
pub mod backend;
pub mod bytes;
pub mod ci_comment;
pub mod commands;
pub mod config;
pub mod doctor;
pub mod engine;
pub mod laws;
pub mod numbers;
pub mod parsers;
pub mod paths;
pub mod profiles;
pub mod report;
pub mod rules;
pub mod sorting;
pub mod tables;
pub mod text;
pub mod text_order;
