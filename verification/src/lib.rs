//! Deployment and isolation layer for a BFT validator's safety-rules
//! subsystem: bootstrap of the persistent safety storage, the uniform
//! safety-rules operation contract, the wire codec shared by the
//! serializer / thread / process topologies, and the manager that picks a
//! topology and routes operations to the single evaluator instance.

pub mod config;
pub mod crypto;
pub mod persistent_safety_storage;
pub mod process;
pub mod safety_rules;
pub mod safety_rules_manager;
pub mod thread;
pub mod serializer;
pub mod secure_storage;
