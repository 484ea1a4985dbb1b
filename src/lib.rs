use vstd::prelude::*;

pub mod port;
pub mod sleep_monitor;
pub mod driver;

verus! {

} // verus!
