//! Small, self-contained exercises in verified Rust: arithmetic helpers,
//! searching text for a query, a guessing game's rules, a quota checker,
//! and assorted struct, enum, trait and generics examples.
use vstd::prelude::*;

pub mod adder;
pub mod back_of_house;
pub mod basics;
pub mod closures;
pub mod enums;
pub mod errors;
pub mod front_of_house;
pub mod front_of_house1;
pub mod generics;
pub mod grep;
pub mod guessing;
pub mod iterators;
pub mod lifetimes;
pub mod limit;
pub mod ownership;
pub mod pointers;
pub mod restaurant;
pub mod structs;
pub mod tester;
pub mod traits;

verus! {

} // verus!
