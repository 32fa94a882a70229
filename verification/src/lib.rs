//! Process-management and syscall-dispatch core of a small cooperative
//! kernel with a triple-modular-redundancy (TMR) layer: a logical task can
//! be spawned as three replica processes whose result vectors are
//! cross-checked by a majority vote.

pub mod process;
pub mod syscall;
