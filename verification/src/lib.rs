//! Installing tools from the aqua registry: the versions that a tool has, the asset of a version, and
//! how the asset is downloaded, verified and unpacked.
//!
//! What takes the network, files or other programs is a sequence of steps. Each step says what is to be
//! done outside, and holds the state that goes on with the outcome.
pub mod backend;
pub mod checksum;
pub mod command;
pub mod cosign;
pub mod extraction;
pub mod installation;
pub mod lock;
pub mod minisign;
pub mod names;
pub mod package;
pub mod paths;
pub mod pattern;
pub mod platform;
pub mod programs;
pub mod release;
pub mod slsa;
pub mod sources;
pub mod text;
pub mod url;
pub mod verification;
pub mod versions;
