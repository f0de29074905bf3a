//! Provisioning of Minecraft server instances, verified with Verus.
//!
//! The library decides; its callers read and write files, talk to the
//! network and run processes:
//! - `java_version`, `java`, `locator`: Java version strings, candidate
//!   discovery and the choice among candidates;
//! - `hashing`, `ioutil`: digests, their hex form, conditional fetches into
//!   a cache and verified downloads;
//! - `mojang`, `mod_loader`: game versions and the Vanilla, Fabric and
//!   Paper install rules;
//! - `mod_provider`, `instance`, `commands`, `cli`: resolving mods and
//!   recording them in an instance.

pub mod cli;
pub mod commands;
pub mod hashing;
pub mod instance;
pub mod ioutil;
pub mod java;
pub mod java_version;
pub mod locator;
pub mod mod_loader;
pub mod mod_provider;
pub mod mojang;
pub mod platform;
pub mod text;
