//! Build-and-deploy logic for CTF challenge infrastructure.
//!
//! The library holds the configuration model, the build orchestration rules,
//! the artifact extraction rules and the Kubernetes deploy sequencing, each
//! stated by contracts. Talking to the container engine, the cluster and the
//! object store is left to the caller, which hands results back as plain
//! values.
use vstd::prelude::*;

pub mod artifacts;
pub mod builder;
pub mod challenge;
pub mod config;
pub mod deploy;
pub mod frontend;
pub mod init;
pub mod publish;
pub mod template;
pub mod text;

verus! {

} // verus!
