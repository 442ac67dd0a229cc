pub mod errors;
pub mod listing;
pub mod outcome;
pub mod plan;
pub mod recycle;
pub mod remote;
pub mod resolver;
pub mod runner;
pub mod shell;
pub mod text;
