//! The public-facing side of the restaurant.
use vstd::prelude::*;

pub mod hosting;
pub mod serving;

verus! {

} // verus!
