//! Request routing and workload logic of a two-tier workflow service:
//! a frontend that registers pending requests and a chain of compute
//! services that produce or process data and forward it to the next hop.

pub mod compute;
pub mod frontend;
pub mod record;
pub mod registry;
pub mod reply;
pub mod routing;
pub mod service;
pub mod text;
