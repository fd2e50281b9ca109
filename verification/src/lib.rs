//! Provisioning of per-instance microVMs.
//!
//! A deploy request brings a code archive and metadata. The library turns
//! them into a configuration and a code bundle, allocates a subdomain, and
//! lays out the ordered plan that registers the instance, prepares its root
//! image, places the code, and starts the hypervisor. The caller performs
//! each action of the plan on the registry and on the host and reports how
//! it went; when a step fails, the library says which earlier steps are taken
//! back, and in what order.

pub mod archive;
pub mod boot;
pub mod config;
pub mod deploy;
pub mod guarantees;
pub mod host;
pub mod layout;
pub mod mac;
pub mod metadata;
pub mod names;
pub mod pipeline;
pub mod plan;
pub mod registry;
pub mod text;
