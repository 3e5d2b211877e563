//! A second front of house, to show a re-exported module beside a direct one.
use vstd::prelude::*;

pub mod hosting;

verus! {

} // verus!
