//! The bet taxonomy: what each kind of bet covers, what it pays, and how a
//! bet is built and checked.
use crate::wheel::{
    has_label, is_standard_wheel, label_on_wheel, lemma_definition_labels, lemma_wheel_order_is_permutation,
    pocket_definitions, wheel_order, pocket_has_label, ticker_on_wheel, Color, Pocket, PocketView, Wheel,
    BLUE_CHIP_DOZEN_C, GROWTH_DOZEN_A, VALUE_DOZEN_B,
};
use vstd::prelude::*;

verus! {

/// The kinds of bet a player can make.
#[derive(Debug, PartialEq, Eq, Hash)]
pub enum BetType {
    /// Inside bet on a single ticker.
    StraightUp(String),
    /// Inside bet on two tickers.
    Split(String, String),
    Red,
    Black,
    /// Odd numbers, zero excluded.
    Odd,
    /// Even numbers, zero excluded.
    Even,
    /// Numbers 1 to 18.
    Low,
    /// Numbers 19 to 36.
    High,
    /// Every pocket that carries the given label.
    Category(String),
    GrowthDozen,
    ValueDozen,
    BlueChipDozen,
    /// Column 1, 2 or 3 of the table.
    Column(u8),
}

impl Clone for BetType {
    fn clone(&self) -> (r: Self)
        ensures
            r == *self,
    {
        match self {
            BetType::StraightUp(t) => BetType::StraightUp(t.clone()),
            BetType::Split(a, b) => BetType::Split(a.clone(), b.clone()),
            BetType::Red => BetType::Red,
            BetType::Black => BetType::Black,
            BetType::Odd => BetType::Odd,
            BetType::Even => BetType::Even,
            BetType::Low => BetType::Low,
            BetType::High => BetType::High,
            BetType::Category(c) => BetType::Category(c.clone()),
            BetType::GrowthDozen => BetType::GrowthDozen,
            BetType::ValueDozen => BetType::ValueDozen,
            BetType::BlueChipDozen => BetType::BlueChipDozen,
            BetType::Column(c) => BetType::Column(*c),
        }
    }
}

/// A bet: what it covers and the stake on it.
#[derive(Debug)]
pub struct Bet {
    pub bet_type: BetType,
    pub amount: u32,
}

impl Clone for Bet {
    fn clone(&self) -> (r: Self)
        ensures
            r == *self,
    {
        Bet { bet_type: self.bet_type.clone(), amount: self.amount }
    }
}

/// Why a bet could not be built.
#[derive(Debug, Clone, Copy, PartialEq, Eq, Structural)]
pub enum BetError {
    /// The stake is zero.
    ZeroStake,
    /// A ticker that no pocket of the wheel has.
    UnknownTicker,
    /// A split that names the same ticker twice.
    RepeatedTicker,
    /// A label that no pocket of the wheel carries.
    UnknownCategory,
    /// A column other than 1, 2 or 3.
    InvalidColumn,
}

/// Inside bets name their tickers; outer bets cover a property of the pocket.
pub open spec fn is_outer(t: BetType) -> bool {
    !(t is StraightUp || t is Split)
}

/// Column `col` holds the numbers whose remainder by 3 is that of `col`.
pub open spec fn column_matches(col: int, n: int) -> bool {
    1 <= col <= 3 && n % 3 == col % 3
}

/// Whether a bet of kind `t` wins when the ball lands in `p`. Zero is the
/// house's pocket: there only a straight-up bet on its own ticker wins.
pub open spec fn wins(t: BetType, p: PocketView) -> bool {
    let n = p.number as int;
    if n == 0 {
        match t {
            BetType::StraightUp(ticker) => ticker@ == p.ticker,
            _ => false,
        }
    } else {
        match t {
            BetType::StraightUp(ticker) => p.ticker == ticker@,
            BetType::Split(a, b) => p.ticker == a@ || p.ticker == b@,
            BetType::Red => p.color == Color::Red,
            BetType::Black => p.color == Color::Black,
            BetType::Odd => n % 2 != 0,
            BetType::Even => n % 2 == 0,
            BetType::Low => 1 <= n <= 18,
            BetType::High => 19 <= n <= 36,
            BetType::Column(c) => column_matches(c as int, n),
            BetType::Category(label) => has_label(p, label@),
            BetType::GrowthDozen => has_label(p, GROWTH_DOZEN_A@),
            BetType::ValueDozen => has_label(p, VALUE_DOZEN_B@),
            BetType::BlueChipDozen => has_label(p, BLUE_CHIP_DOZEN_C@),
        }
    }
}

/// The winnings per unit of stake, stake not included.
pub open spec fn multiplier_of(t: BetType) -> nat {
    match t {
        BetType::StraightUp(_) => 35,
        BetType::Split(_, _) => 17,
        BetType::Red | BetType::Black | BetType::Odd | BetType::Even | BetType::Low
        | BetType::High => 1,
        BetType::Column(_) | BetType::Category(_) | BetType::GrowthDozen | BetType::ValueDozen
        | BetType::BlueChipDozen => 2,
    }
}

/// What a winning bet pays back: the winnings and the stake.
pub open spec fn payout_of(b: Bet) -> int {
    b.amount * multiplier_of(b.bet_type) + b.amount
}

/// The reason a bet of kind `t` with stake `amount` cannot be built on a
/// wheel with the pockets `pockets`, if there is one.
pub open spec fn bet_error(t: BetType, amount: u32, pockets: Seq<PocketView>) -> Option<BetError> {
    if amount == 0 {
        Some(BetError::ZeroStake)
    } else {
        match t {
            BetType::StraightUp(ticker) => if ticker_on_wheel(pockets, ticker@) {
                None
            } else {
                Some(BetError::UnknownTicker)
            },
            BetType::Split(a, b) => if !ticker_on_wheel(pockets, a@) || !ticker_on_wheel(
                pockets,
                b@,
            ) {
                Some(BetError::UnknownTicker)
            } else if a@ == b@ {
                Some(BetError::RepeatedTicker)
            } else {
                None
            },
            BetType::Category(label) => if label_on_wheel(pockets, label@) {
                None
            } else {
                Some(BetError::UnknownCategory)
            },
            BetType::Column(c) => if 1 <= c <= 3 {
                None
            } else {
                Some(BetError::InvalidColumn)
            },
            _ => None,
        }
    }
}

impl Bet {
    /// A bet of kind `bet_type` with the stake `amount`, which is positive.
    /// A column is 1, 2 or 3, and a split names two different tickers; a bet
    /// whose tickers or labels still need checking against a wheel is built
    /// by `try_new`.
    pub fn new(bet_type: BetType, amount: u32) -> (r: Bet)
        requires
            amount > 0,
            bet_type matches BetType::Column(c) ==> 1 <= c <= 3,
            bet_type matches BetType::Split(a, b) ==> a@ != b@,
        ensures
            r == (Bet { bet_type, amount }),
    {
        Bet { bet_type, amount }
    }

    /// A bet of kind `bet_type` with the stake `amount`, checked against the
    /// wheel: the stake is positive, every ticker and label is on the wheel, a
    /// split names two tickers, and a column is 1, 2 or 3.
    pub fn try_new(bet_type: BetType, amount: u32, wheel: &Wheel) -> (r: Result<Bet, BetError>)
        ensures
            match r {
                Ok(b) => bet_error(bet_type, amount, wheel@) is None && b == (Bet {
                    bet_type,
                    amount,
                }),
                Err(e) => bet_error(bet_type, amount, wheel@) == Some(e),
            },
    {
        if amount == 0 {
            return Err(BetError::ZeroStake);
        }
        let error = match &bet_type {
            BetType::StraightUp(ticker) => if wheel.has_ticker(ticker) {
                None
            } else {
                Some(BetError::UnknownTicker)
            },
            BetType::Split(a, b) => if !wheel.has_ticker(a) || !wheel.has_ticker(b) {
                Some(BetError::UnknownTicker)
            } else if *a == *b {
                Some(BetError::RepeatedTicker)
            } else {
                None
            },
            BetType::Category(label) => if wheel.has_category(label) {
                None
            } else {
                Some(BetError::UnknownCategory)
            },
            BetType::Column(c) => if 1 <= *c && *c <= 3 {
                None
            } else {
                Some(BetError::InvalidColumn)
            },
            _ => None,
        };
        match error {
            Some(e) => Err(e),
            None => Ok(Bet { bet_type, amount }),
        }
    }

    /// What the bet pays back when it wins: the stake times the multiplier of
    /// its kind, plus the stake.
    pub fn calculate_payout(&self) -> (r: u32)
        requires
            payout_of(*self) <= u32::MAX,
        ensures
            r == payout_of(*self),
    {
        let m = payout_multiplier(&self.bet_type);
        self.amount * m + self.amount
    }

    /// Whether the bet wins when the ball lands in `winning_pocket`.
    pub fn check_win(&self, winning_pocket: &Pocket) -> (r: bool)
        ensures
            r == wins(self.bet_type, winning_pocket@),
    {
        let winning_number = winning_pocket.number;
        let winning_color = winning_pocket.color;
        let winning_ticker = &winning_pocket.ticker;
        if winning_number == 0 {
            return match &self.bet_type {
                BetType::StraightUp(ticker) => *ticker == *winning_ticker,
                _ => false,
            };
        }
        match &self.bet_type {
            BetType::StraightUp(ticker) => *winning_ticker == *ticker,
            BetType::Split(t1, t2) => *winning_ticker == *t1 || *winning_ticker == *t2,
            BetType::Red => winning_color == Color::Red,
            BetType::Black => winning_color == Color::Black,
            BetType::Odd => winning_number % 2 != 0,
            BetType::Even => winning_number % 2 == 0,
            BetType::Low => winning_number >= 1 && winning_number <= 18,
            BetType::High => winning_number >= 19 && winning_number <= 36,
            BetType::Column(col) => match *col {
                1 => winning_number % 3 == 1,
                2 => winning_number % 3 == 2,
                3 => winning_number % 3 == 0,
                _ => false,
            },
            BetType::Category(cat) => pocket_has_label(winning_pocket, cat),
            BetType::GrowthDozen => pocket_has_label(
                winning_pocket,
                &String::from_str(GROWTH_DOZEN_A),
            ),
            BetType::ValueDozen => pocket_has_label(winning_pocket, &String::from_str(VALUE_DOZEN_B)),
            BetType::BlueChipDozen => pocket_has_label(
                winning_pocket,
                &String::from_str(BLUE_CHIP_DOZEN_C),
            ),
        }
    }
}

/// The winnings per unit of stake that a bet of kind `bet_type` pays.
pub fn payout_multiplier(bet_type: &BetType) -> (r: u32)
    ensures
        r == multiplier_of(*bet_type),
{
    match bet_type {
        BetType::StraightUp(_) => 35,
        BetType::Split(_, _) => 17,
        BetType::Red => 1,
        BetType::Black => 1,
        BetType::Odd => 1,
        BetType::Even => 1,
        BetType::Low => 1,
        BetType::High => 1,
        BetType::Column(_) => 2,
        BetType::Category(_) => 2,
        BetType::GrowthDozen => 2,
        BetType::ValueDozen => 2,
        BetType::BlueChipDozen => 2,
    }
}

/// A straight-up bet on `ticker`, if the ticker is on the wheel and the stake
/// is positive.
pub fn create_straight_up(ticker: &str, amount: u32, wheel: &Wheel) -> (r: Option<Bet>)
    ensures
        r is Some <==> amount > 0 && ticker_on_wheel(wheel@, ticker@),
        r matches Some(b) ==> b.amount == amount && (b.bet_type matches BetType::StraightUp(t)
            && t@ == ticker@),
{
    match Bet::try_new(BetType::StraightUp(String::from_str(ticker)), amount, wheel) {
        Ok(b) => Some(b),
        Err(_) => None,
    }
}

/// A bet on every pocket that carries the label `category`, if some pocket
/// carries it and the stake is positive.
pub fn create_category_bet(category: &str, amount: u32, wheel: &Wheel) -> (r: Option<Bet>)
    ensures
        r is Some <==> amount > 0 && label_on_wheel(wheel@, category@),
        r matches Some(b) ==> b.amount == amount && (b.bet_type matches BetType::Category(c)
            && c@ == category@),
{
    match Bet::try_new(BetType::Category(String::from_str(category)), amount, wheel) {
        Ok(b) => Some(b),
        Err(_) => None,
    }
}

/// A `Red` bet with the stake `amount`.
pub fn create_red_bet(amount: u32) -> (r: Bet)
    requires
        amount > 0,
    ensures
        r == (Bet { bet_type: BetType::Red, amount }),
{
    Bet::new(BetType::Red, amount)
}

/// A `Black` bet with the stake `amount`.
pub fn create_black_bet(amount: u32) -> (r: Bet)
    requires
        amount > 0,
    ensures
        r == (Bet { bet_type: BetType::Black, amount }),
{
    Bet::new(BetType::Black, amount)
}

/// A `Even` bet with the stake `amount`.
pub fn create_even_bet(amount: u32) -> (r: Bet)
    requires
        amount > 0,
    ensures
        r == (Bet { bet_type: BetType::Even, amount }),
{
    Bet::new(BetType::Even, amount)
}

/// A `Odd` bet with the stake `amount`.
pub fn create_odd_bet(amount: u32) -> (r: Bet)
    requires
        amount > 0,
    ensures
        r == (Bet { bet_type: BetType::Odd, amount }),
{
    Bet::new(BetType::Odd, amount)
}

/// A `Low` bet with the stake `amount`.
pub fn create_low_bet(amount: u32) -> (r: Bet)
    requires
        amount > 0,
    ensures
        r == (Bet { bet_type: BetType::Low, amount }),
{
    Bet::new(BetType::Low, amount)
}

/// A `High` bet with the stake `amount`.
pub fn create_high_bet(amount: u32) -> (r: Bet)
    requires
        amount > 0,
    ensures
        r == (Bet { bet_type: BetType::High, amount }),
{
    Bet::new(BetType::High, amount)
}

/// A `GrowthDozen` bet with the stake `amount`.
pub fn create_growth_dozen_bet(amount: u32) -> (r: Bet)
    requires
        amount > 0,
    ensures
        r == (Bet { bet_type: BetType::GrowthDozen, amount }),
{
    Bet::new(BetType::GrowthDozen, amount)
}

/// A `ValueDozen` bet with the stake `amount`.
pub fn create_value_dozen_bet(amount: u32) -> (r: Bet)
    requires
        amount > 0,
    ensures
        r == (Bet { bet_type: BetType::ValueDozen, amount }),
{
    Bet::new(BetType::ValueDozen, amount)
}

/// A `BlueChipDozen` bet with the stake `amount`.
pub fn create_blue_chip_dozen_bet(amount: u32) -> (r: Bet)
    requires
        amount > 0,
    ensures
        r == (Bet { bet_type: BetType::BlueChipDozen, amount }),
{
    Bet::new(BetType::BlueChipDozen, amount)
}

/// A bet on column `column`, if it is 1, 2 or 3 and the stake is positive.
pub fn create_column_bet(column: u8, amount: u32) -> (r: Option<Bet>)
    ensures
        r is Some <==> 1 <= column <= 3 && amount > 0,
        r matches Some(b) ==> b == (Bet { bet_type: BetType::Column(column), amount }),
{
    if column >= 1 && column <= 3 && amount > 0 {
        Some(Bet::new(BetType::Column(column), amount))
    } else {
        None
    }
}

/// When the ball lands on zero, every outer bet loses, whatever its stake.
pub proof fn lemma_zero_loses_outer_bets(b: Bet, p: PocketView)
    requires
        is_outer(b.bet_type),
        p.number == 0,
    ensures
        !wins(b.bet_type, p),
{
}

/// A stake of zero is refused whatever the bet and the wheel.
pub proof fn lemma_zero_stake_rejected(t: BetType, pockets: Seq<PocketView>)
    ensures
        bet_error(t, 0, pockets) == Some(BetError::ZeroStake),
{
}

/// On the standard wheel a growth dozen bet wins exactly at places 1 to 7
/// (the seven growth tickers), a value dozen bet at places 8 to 12, and a
/// blue chip dozen bet at places 13 to 17.
pub proof fn lemma_dozen_bets_on_standard_wheel(pockets: Seq<PocketView>, i: int)
    requires
        is_standard_wheel(pockets),
        0 <= i < 37,
    ensures
        wins(BetType::GrowthDozen, pockets[i]) <==> 1 <= i <= 7,
        wins(BetType::ValueDozen, pockets[i]) <==> 8 <= i <= 12,
        wins(BetType::BlueChipDozen, pockets[i]) <==> 13 <= i <= 17,
{
    lemma_definition_labels();
    lemma_wheel_order_is_permutation();
    assert(pockets[i].categories == pocket_definitions()[i].categories);
    if i != 0 {
        assert(wheel_order()[0] == 0);
    }
}

/// Each number from 1 to 36 lies in exactly one of the three columns, and
/// which one is decided by its remainder by 3 alone: column 1 holds remainder
/// 1, column 2 remainder 2, column 3 remainder 0.
pub proof fn lemma_column_consistency(p: PocketView)
    requires
        1 <= p.number <= 36,
    ensures
        wins(BetType::Column(1), p) <==> p.number % 3 == 1,
        wins(BetType::Column(2), p) <==> p.number % 3 == 2,
        wins(BetType::Column(3), p) <==> p.number % 3 == 0,
        wins(BetType::Column(1), p) || wins(BetType::Column(2), p) || wins(BetType::Column(3), p),
        !(wins(BetType::Column(1), p) && wins(BetType::Column(2), p)),
        !(wins(BetType::Column(1), p) && wins(BetType::Column(3), p)),
        !(wins(BetType::Column(2), p) && wins(BetType::Column(3), p)),
        forall|c: u8|
            #[trigger] wins(BetType::Column(c), p) <==> 1 <= c <= 3 && p.number % 3 == c % 3,
{
}

} // verus!
