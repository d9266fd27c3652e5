//! Supervision of one backend child process: the decisions of its lifecycle
//! (spawn, store, stop, exit), the relay of its output to leveled log records,
//! and the resolution of the data directory it runs in.
//!
//! The library spawns, kills and logs nothing itself: the host performs each
//! action that a decision names and hands the outcome back.
pub mod data_dir;
pub mod notice;
pub mod relay;
pub mod supervisor;
