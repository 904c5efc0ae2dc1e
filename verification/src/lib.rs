//! The reconciliation context of a controller for `ScheduledCronJob` resources,
//! written without I/O: every operation is split into the request it sends and
//! the decision it takes on the cluster's reply.

pub mod clock;
pub mod cluster;
pub mod context;
pub mod error;
pub mod event;
pub mod resource;
pub mod text;
pub mod update;
