//! Stack launcher and ecosystem manager: configuration lookups, project
//! discovery, log classification and the dashboard's state machine.

pub mod seqs;
pub mod text;
pub mod config;
pub mod clock;
pub mod monitor;
pub mod logger;
pub mod scanner;
pub mod services;
pub mod launch;
pub mod metrics;
