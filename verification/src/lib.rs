//! Fetching robot log files over SSH: the decisions, formats and data of the tool,
//! with the network and terminal work left to the caller.
pub mod execute;
pub mod input;
pub mod juicer;
pub mod profile;
pub mod text;
pub mod util;
