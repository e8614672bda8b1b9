//! Progress and throughput of file-copy-style processes, computed from
//! snapshots of their open file descriptors.

pub mod estimate;
pub mod fd;
pub mod fdinfo;
pub mod flags;
pub mod process;
pub mod report;
pub mod size;
pub mod targets;
pub mod text;
