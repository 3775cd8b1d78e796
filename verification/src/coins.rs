use vstd::prelude::*;

verus! {

#[derive(Debug)]
pub enum UsState {
    Alabama,
    Alaska,
}

pub enum Coin {
    Penny,
    Nickel,
    Dime,
    Quarter(UsState),
}

/// The face value of a coin in cents.
pub open spec fn coin_value(coin: Coin) -> u8 {
    match coin {
        Coin::Penny => 1,
        Coin::Nickel => 5,
        Coin::Dime => 10,
        Coin::Quarter(_) => 25,
    }
}

pub fn value_in_cents(coin: Coin) -> (cents: u8)
    ensures
        cents == coin_value(coin),
{
    match coin {
        Coin::Penny => 1,
        Coin::Nickel => 5,
        Coin::Dime => 10,
        Coin::Quarter(_) => 25,
    }
}

/// Counts a coin one way for dimes and another for everything else:
/// quarters return early, dimes return early, and the rest fall through
/// to a count of one.
#[allow(non_snake_case)]
pub fn returnCoin(coin: Coin) -> (count: u8)
    ensures
        coin is Dime ==> count == 2,
        !(coin is Dime) ==> count == 1,
{
    let count: u8 = 0;
    if let Coin::Quarter(_state) = coin {
        return 1;
    } else if let Coin::Dime = coin {
        return 2;
    } else {
        count + 1
    }
}

} // verus!
