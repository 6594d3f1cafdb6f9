//! A privilege-reduction launcher core: given a set of filesystem paths a
//! target command may read or read-write, it derives kernel access masks,
//! classifies paths, accumulates path rules into a kernel ruleset, restricts
//! the calling process irrevocably, and validates the command vector before
//! the process image is replaced.

pub mod access;
pub mod args;
pub mod paths;
pub mod ruleset;
pub mod launch;
pub mod errors;
pub mod db;
