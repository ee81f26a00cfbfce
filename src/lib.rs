use vstd::prelude::*;

pub mod addressing;
pub mod cpu;
pub mod lda;
pub mod log_level;
pub mod logger;
pub mod memory;
pub mod status;
pub mod types;

verus! {

} // verus!
