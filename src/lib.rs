//! The decisions of a command-line runner for WebAssembly modules: when a
//! compiled module goes through the on-disk cache and under which key, which
//! guest ABI a module is run under, how an exported function is found, and
//! how command-line text becomes call arguments. Loading, compiling and
//! running a module are left to the caller.
use vstd::prelude::*;

pub mod cache;
pub mod dispatch;
pub mod invoke;
pub mod numeric;
pub mod resolve;
pub mod run;
pub mod spectest;
pub mod text;

verus! {

} // verus!
