//! Process and thread lifecycle management for a sandboxed compute unit:
//! identifiers, the checkpoint barrier, the cooperative CPU throttle and the
//! process tree (threads, signals, children, join).
use vstd::prelude::*;

pub mod ids;
pub mod process;
pub mod checkpoint;
pub mod cpu;

verus! {

} // verus!
