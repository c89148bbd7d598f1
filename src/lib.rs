//! A terminal dashboard's core: a catalog of connection profiles with a
//! wrapping cursor, and a supervisor for the one external client process
//! bound to the activated profile.
pub mod connection;
pub mod supervisor;
pub mod client;
pub mod capture;
pub mod files;
pub mod config;
pub mod dashboard;
