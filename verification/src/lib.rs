//! Theme bundles for a desktop: the data model of a theme, the ordered plan of
//! loader steps that applies one, the line-based patcher for editor settings,
//! the upgrade of older on-disk formats, and the decisions of the client that
//! publishes themes to a shared repository.
//!
//! Nothing here touches the file system, a process or the network. Every
//! operation takes what was read as plain values and returns what is to be
//! written or run, so that each decision carries a proved contract.
pub mod config;
pub mod daemon;
pub mod error;
pub mod kv;
pub mod loaders;
pub mod patcher;
pub mod paths;
pub mod players;
pub mod ravenserver;
pub mod roption;
pub mod steps;
pub mod text;
pub mod themes;
