//! The player's balance account.
use vstd::prelude::*;

verus! {

/// A player and the money they hold.
#[derive(Debug)]
pub struct Player {
    balance: u32,
}

impl View for Player {
    type V = nat;

    /// The current balance.
    closed spec fn view(&self) -> nat {
        self.balance as nat
    }
}

impl Player {
    /// A player holding `starting_balance`.
    pub fn new(starting_balance: u32) -> (r: Self)
        ensures
            r@ == starting_balance,
    {
        Player { balance: starting_balance }
    }

    /// The current balance.
    pub fn balance(&self) -> (r: u32)
        ensures
            r == self@,
    {
        self.balance
    }

    /// Credits `amount` of winnings.
    pub fn add_winnings(&mut self, amount: u32)
        requires
            old(self)@ + amount <= u32::MAX,
        ensures
            final(self)@ == old(self)@ + amount,
    {
        self.balance = self.balance + amount;
    }

    /// Takes the stake `amount` from the balance, if the balance covers it;
    /// says whether it did. Otherwise the balance is left as it was.
    pub fn place_bet(&mut self, amount: u32) -> (r: bool)
        ensures
            r == (amount <= old(self)@),
            r ==> final(self)@ == old(self)@ - amount,
            !r ==> final(self)@ == old(self)@,
    {
        if amount > self.balance {
            false
        } else {
            self.balance = self.balance - amount;
            true
        }
    }

    /// Gives back `amount` of stakes that were cancelled.
    pub fn refund_bet(&mut self, amount: u32)
        requires
            old(self)@ + amount <= u32::MAX,
        ensures
            final(self)@ == old(self)@ + amount,
    {
        self.balance = self.balance + amount;
    }
}

} // verus!
