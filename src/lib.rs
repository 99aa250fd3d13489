//! Host-side core of a sandboxed game runtime: the handle table that stands
//! between guest handles and native resources, input edge tracking, the
//! dual-rate frame scheduler, and the runtime context that ties them together.
pub mod handle_table;
pub mod input;
pub mod gpu;
pub mod scheduler;
pub mod surface;
pub mod storage;
pub mod context;
pub mod host;
pub mod bundle;
pub mod cli;
