//! Directory inspection and batch deletion: the decisions and computations,
//! separated from the filesystem calls that feed them.

pub mod format;
pub mod size;
pub mod scan;
pub mod erase;
pub mod location;
