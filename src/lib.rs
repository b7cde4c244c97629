//! Loading plugins into a long-running host.
//!
//! A plugin contributes endpoint handlers (`component`) or request filters
//! (`middleware`). On the plugin side a factory gathers them and hands them
//! over in a `descriptor::TransferDescriptor`, which moves the collection by
//! value and can be reconstructed only once. On the host side the
//! `manager::PluginManager` keeps the opened libraries and the plugin
//! instances, fires their hooks in a fixed order, and hands each instance's
//! handlers or filters over at most once.
use vstd::prelude::*;

pub mod component;
pub mod descriptor;
pub mod exporter;
pub mod manager;
pub mod middleware;
pub mod symbols;

verus! {

} // verus!
