//! Registration of garbage-collection roots: a project-local symlink to a
//! store path, and a collector-visible symlink to that project-local link.
//!
//! The filesystem work itself is performed by the caller; this library
//! computes the paths involved and decides, after each filesystem call,
//! what happens next.

pub mod path;
pub mod roots;
pub mod model;
