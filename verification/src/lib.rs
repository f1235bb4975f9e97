//! Verified core of a recursive HTTP content-discovery scanner.
//!
//! The library holds the pure logic of the scan engine: expanding wordlist
//! entries into candidate URLs, classifying responses as directories,
//! filtering responses against size and wildcard heuristics, deciding when a
//! discovered directory may be recursed into, and formatting report lines.
//! All I/O (HTTP requests, channels, sinks) lives outside the library and
//! hands plain values in.

pub mod classify;
pub mod config;
pub mod expand;
pub mod filter;
pub mod paths;
pub mod report;
pub mod response;
pub mod text;
pub mod urls;
pub mod worker;
