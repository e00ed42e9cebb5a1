use vstd::prelude::*;

pub mod api;
pub mod flash;
pub mod handlers;
pub mod http;
pub mod laws;
pub mod task;

verus! {

} // verus!
