//! Decision logic of a disk-space cleanup tool: what a scan found, how it is
//! classified and grouped, and which paths may be deleted.

pub mod model;
pub mod classifier;
pub mod cleanup;
pub mod text;
pub mod path;
pub mod deletion;
pub mod docker;
pub mod ids;
pub mod plausibility;
pub mod recipes;
pub mod sorting;
pub mod scan_result;
