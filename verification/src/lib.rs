//! Verified core of a Diablo II save editor: the bit-level stat encoding and
//! header checksum of `.d2s` files, and the character model whose edits keep
//! stat and skill point budgets, gold caps and vitals consistent.

pub mod config;
pub mod audited;
pub mod laws;
pub mod model;
pub mod paths;
pub mod save;
pub mod serialize;
pub mod session;
