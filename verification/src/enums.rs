//! Enums and pattern matching: address kinds, coins, and optional increments.
use vstd::prelude::*;

verus! {

/// The two kinds of IP address.
#[derive(Debug)]
pub enum IpAddrKind {
    V4,
    V6,
}

/// Accepts an address kind and does nothing with it.
pub fn route(ip_kind: IpAddrKind) {
}

/// A state named on a quarter.
#[derive(Debug)]
pub enum UsState {
    Alaska,
    Hawai,
    Alabama,
}

/// A coin of the United States.
pub enum Coin {
    Penny,
    Nickel,
    Dime,
    Quarter(UsState),
}

/// The worth of a coin in cents.
pub fn value_in_cents(coin: Coin) -> (r: u8)
    ensures
        r == match coin {
            Coin::Penny => 1u8,
            Coin::Nickel => 5u8,
            Coin::Dime => 10u8,
            Coin::Quarter(_) => 25u8,
        },
{
    match coin {
        Coin::Penny => 1,
        Coin::Nickel => 5,
        Coin::Dime => 10,
        Coin::Quarter(_state) => 25,
    }
}

/// Adds one inside the option, leaving `None` as it is.
pub fn plus_one(x: Option<i32>) -> (r: Option<i32>)
    requires
        x matches Some(i) ==> i + 1 <= i32::MAX,
    ensures
        r == match x {
            Some(i) => Some((i + 1) as i32),
            None => None::<i32>,
        },
{
    match x {
        Some(i) => Some(i + 1),
        None => None,
    }
}

} // verus!
