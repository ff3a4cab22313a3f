//! File-I/O layer of a RISC-V kernel: descriptor tables and the lifecycle
//! of open files, path-resolution decisions, flag validation, user-buffer
//! accounting, seeking, the page-fault bridge and machine discovery from
//! device-tree nodes, each stated and proved against a mathematical model.

pub mod device;
pub mod error;
pub mod fault;
pub mod fd_table;
pub mod file;
pub mod flags;
pub mod io;
pub mod lifecycle;
pub mod machine;
pub mod path;
pub mod seek;
pub mod stat;
pub mod syscall;
