//! A build and installation orchestrator for a managed runtime image: it
//! provisions a workspace, fetches platform-specific artifacts with bounded
//! concurrency, unpacks and relocates them into a canonical layout, drives
//! ordered external script runs against that layout, and persists the
//! workspace's state between invocations so that later commands can resume
//! without re-fetching.

use vstd::prelude::*;

pub mod application;
pub mod concurrent;
pub mod create;
pub mod download;
pub mod error;
pub mod gtoolkit;
pub mod invocation;
pub mod matching;
pub mod moving;
pub mod options;
pub mod paths;
pub mod template;
pub mod tools;
pub mod unzip;
pub mod urls;
pub mod zipping;
pub mod platform;
pub mod seed;
pub mod version;
pub mod smalltalk;
pub mod smalltalking;
pub mod state;
pub mod strutil;

verus! {

/// The file name, inside a workspace, of the persisted installer state.
pub const SERIALIZATION_FILE: &'static str = "gtoolkit.yaml";

} // verus!
