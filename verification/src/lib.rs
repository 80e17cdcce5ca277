//! Verified core of the lori game runtime: log lines, the script call
//! protocol, the host's input state and the spawner bookkeeping.

pub mod print;
pub mod script;
pub mod keys;
pub mod host;
pub mod thing;
