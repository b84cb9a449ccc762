//! A reconciliation controller for `VirtualMachine` and `Pokemon` resources.
//!
//! The library holds the controller's decisions as pure, verified functions:
//! the finalizer guard, the convergence plan that maps a desired state and the
//! observed child resources to create/delete operations and a status, the
//! error policy, and the status merge-patch. The process that talks to the
//! cluster performs the operations and hands the observations back.

pub mod model;
pub mod error;
pub mod labels;
pub mod convergence;
pub mod finalizer;
pub mod status;
pub mod pokemon;
pub mod laws;
pub mod state;
pub mod controller;
