//! Small enum-driven value types: addresses, messages, coins and dice moves.

use vstd::prelude::*;

verus! {

/// The two families of IP addresses, without their payloads.
pub enum IpAddrKind {
    V4,
    V6,
}

/// An IP address with its payload: four octets, or a textual form.
pub enum IpAddr {
    V4(u8, u8, u8, u8),
    V6(String),
}

/// Dispatch on an address kind. Nothing is routed yet.
pub fn route(ip_kind: IpAddrKind) {
    let _ = ip_kind;
}

/// A message to a hypothetical peer.
pub enum Message {
    Quit,
    Move { x: i32, y: i32 },
    Write(String),
    ChangeColor(i32, i32, i32),
}

impl Message {
    /// Deliver the message. Nothing listens yet.
    pub fn call(&self) {
    }
}

/// States that mint quarters.
#[derive(Clone, Copy, PartialEq, Eq, Structural, Debug)]
pub enum UsState {
    Alabama,
    Alaska,
}

/// United States coins; a quarter carries the state that minted it.
pub enum Coin {
    Penny,
    Nickel,
    Dime,
    Quarter(UsState),
}

/// The face value of a coin, in cents.
pub open spec fn coin_value(coin: Coin) -> u8 {
    match coin {
        Coin::Penny => 1,
        Coin::Nickel => 5,
        Coin::Dime => 10,
        Coin::Quarter(_) => 25,
    }
}

/// What a coin is worth, in cents: a penny 1, a nickel 5, a dime 10, and a
/// quarter 25 whichever state minted it.
pub fn value_in_cents(coin: Coin) -> (cents: u8)
    ensures
        cents == coin_value(coin),
{
    match coin {
        Coin::Penny => 1,
        Coin::Nickel => 5,
        Coin::Dime => 10,
        Coin::Quarter(_) => 25,
    }
}

/// Successor inside `Option`: `None` stays `None`, `Some(i)` becomes
/// `Some(i + 1)`.
pub fn plus_one(x: Option<i32>) -> (r: Option<i32>)
    requires
        x matches Some(i) ==> i < i32::MAX,
    ensures
        x is None ==> r is None,
        x matches Some(i) ==> r == Some((i + 1) as i32),
{
    match x {
        None => None,
        Some(i) => Some(i + 1),
    }
}

/// Dice-roll reward: don a fancy hat.
pub fn add_fancy_hat() {
}

/// Dice-roll penalty: lose the fancy hat.
pub fn remove_fancy_hat() {
}

/// Move the player the rolled number of spaces.
pub fn move_player(num_spaces: u8) {
    let _ = num_spaces;
}

/// Roll again.
pub fn reroll() {
}

} // verus!
