use vstd::prelude::*;

pub mod fetch;
pub mod gpu;
pub mod models;
pub mod paths;
pub mod setup;
pub mod text;
pub mod transfer;
pub mod upscale;

verus! {

} // verus!
