//! Two-hop link following: the pure decisions of a crawler that reads a page,
//! follows each of its links once, and downloads what the first link of each
//! followed page serves.

pub mod branch;
pub mod cli;
pub mod filename;
pub mod headers;
pub mod links;
pub mod report;
pub mod resolve;
