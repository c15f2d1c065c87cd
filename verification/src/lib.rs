//! Seaport: the logic of a small file-distribution server for a game
//! server directory. It scans a directory into a file list, answers
//! download requests for files below that directory, and drives the
//! start/stop state shown in a control window.
pub mod text;
pub mod data;
pub mod pathops;
pub mod digest;
pub mod timefmt;
pub mod config;
pub mod scanner;
pub mod serve;
pub mod gui;
