//! Protobuf message models: the plain data shapes of the chain modules the
//! harness and its callers exchange, one module per protobuf package.

pub mod base;
pub mod shim;
pub mod circuit;
pub mod evidence;
pub mod upgrade;
pub mod contractmanager;
pub mod feerefunder;
pub mod interchaintxs;
pub mod interchaintxs_v1;
pub mod tokenfactory;
pub mod superfluid;
