//! Supervision of a single local server process: locating its binary,
//! deciding launches and stops, and relaying its console output.
//!
//! The library holds the decisions; the program around it performs the
//! file-system, user-interface and process work that each decision asks for.
pub mod config;
pub mod locator;
pub mod outcome;
pub mod output;
pub mod path;
pub mod port;
pub mod supervisor;
