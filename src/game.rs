//! The round: placing bets against the player's balance, cancelling them, and
//! resolving them against one spin of the wheel.
use crate::bets::{multiplier_of, payout_multiplier, payout_of, wins, Bet};
use crate::player::Player;
use crate::wheel::{is_standard_wheel, Pocket, PocketView, Wheel};
use vstd::prelude::*;

verus! {

/// The sum of the stakes of `bets`.
pub open spec fn stake_sum(bets: Seq<Bet>) -> int
    decreases bets.len(),
{
    if bets.len() == 0 {
        0
    } else {
        stake_sum(bets.drop_last()) + bets.last().amount
    }
}

/// What the bet `b` pays back when the ball lands in `p`: its payout if it
/// wins, nothing if it loses.
pub open spec fn return_of(b: Bet, p: PocketView) -> int {
    if wins(b.bet_type, p) {
        payout_of(b)
    } else {
        0
    }
}

/// What all of `bets` pay back together when the ball lands in `p`.
pub open spec fn winnings_sum(bets: Seq<Bet>, p: PocketView) -> int
    decreases bets.len(),
{
    if bets.len() == 0 {
        0
    } else {
        winnings_sum(bets.drop_last(), p) + return_of(bets.last(), p)
    }
}

/// How one bet of a round fared.
#[derive(Debug)]
pub struct BetOutcome {
    pub bet: Bet,
    pub won: bool,
    /// What the bet paid back, stake included; zero for a losing bet.
    pub payout: u32,
}

/// The account of one resolved round.
#[derive(Debug)]
pub struct RoundReport {
    /// Where the ball landed.
    pub pocket: Pocket,
    /// One entry for each bet, in the order the bets were placed.
    pub outcomes: Vec<BetOutcome>,
    pub total_wagered: u32,
    /// The sum of the payouts, stakes of winning bets included.
    pub total_won: u32,
    /// The player's balance after the winnings were credited.
    pub balance: u32,
}

/// Why a round was not resolved.
#[derive(Debug, Clone, Copy, PartialEq, Eq, Structural)]
pub enum ResolveError {
    /// No bet has been placed this round.
    NoBets,
    /// The winnings would take the balance beyond what it can hold.
    BalanceOverflow,
}

/// `outcomes` gives, bet by bet, how each of `bets` fared in `p`.
pub open spec fn outcomes_match(outcomes: Seq<BetOutcome>, bets: Seq<Bet>, p: PocketView) -> bool {
    &&& outcomes.len() == bets.len()
    &&& forall|i: int|
        0 <= i < bets.len() ==> (#[trigger] outcomes[i]).bet == bets[i] && outcomes[i].won == wins(
            bets[i].bet_type,
            p,
        ) && outcomes[i].payout == return_of(bets[i], p)
}

/// A game: the wheel, the player, and the bets of the round under way.
pub struct Game {
    pub wheel: Wheel,
    player: Player,
    current_bets: Vec<Bet>,
}

impl Game {
    /// The player's balance.
    pub closed spec fn spec_balance(&self) -> nat {
        self.player@
    }

    /// The game's wheel.
    pub closed spec fn spec_wheel(&self) -> Wheel {
        self.wheel
    }

    /// The bets of the round under way, in the order they were placed.
    pub closed spec fn spec_bets(&self) -> Seq<Bet> {
        self.current_bets@
    }

    /// The wheel is well formed, and the balance together with the stakes
    /// held for the round fits in a `u32`.
    pub closed spec fn wf(&self) -> bool {
        &&& self.wheel.wf()
        &&& self.player@ + stake_sum(self.current_bets@) <= u32::MAX
    }
}

/// Adding one bet to a sequence adds its stake to the sum of stakes.
proof fn lemma_stake_sum_push(bets: Seq<Bet>, b: Bet)
    ensures
        stake_sum(bets.push(b)) == stake_sum(bets) + b.amount,
{
    assert(bets.push(b).drop_last() =~= bets);
}

/// Adding one bet to a sequence adds what it pays back to the winnings.
proof fn lemma_winnings_sum_push(bets: Seq<Bet>, b: Bet, p: PocketView)
    ensures
        winnings_sum(bets.push(b), p) == winnings_sum(bets, p) + return_of(b, p),
{
    assert(bets.push(b).drop_last() =~= bets);
}

/// Stakes are never negative, and a prefix never stakes more than the whole.
proof fn lemma_stake_sum_prefix(bets: Seq<Bet>, i: int)
    requires
        0 <= i <= bets.len(),
    ensures
        0 <= stake_sum(bets.take(i)) <= stake_sum(bets),
    decreases bets.len(),
{
    if bets.len() > 0 {
        if i == bets.len() {
            assert(bets.take(i) =~= bets);
            lemma_stake_sum_prefix(bets.drop_last(), i - 1);
            assert(bets.drop_last().take(i - 1) =~= bets.drop_last());
        } else {
            lemma_stake_sum_prefix(bets.drop_last(), i);
            assert(bets.drop_last().take(i) =~= bets.take(i));
        }
    }
}

/// No bet pays back more than 36 times its stake, so a round pays back at
/// most 36 times what was staked.
proof fn lemma_winnings_bounded(bets: Seq<Bet>, p: PocketView)
    ensures
        0 <= winnings_sum(bets, p) <= 36 * stake_sum(bets),
    decreases bets.len(),
{
    if bets.len() > 0 {
        lemma_winnings_bounded(bets.drop_last(), p);
        let b = bets.last();
        assert(b.amount * multiplier_of(b.bet_type) <= b.amount * 35) by (nonlinear_arith)
            requires
                multiplier_of(b.bet_type) <= 35,
        ;
    }
}

/// What one bet pays back is part of what the whole round pays back.
proof fn lemma_return_within_winnings(bets: Seq<Bet>, p: PocketView, i: int)
    requires
        0 <= i < bets.len(),
    ensures
        0 <= return_of(bets[i], p) <= winnings_sum(bets, p),
    decreases bets.len(),
{
    lemma_winnings_bounded(bets.drop_last(), p);
    if i < bets.len() - 1 {
        lemma_return_within_winnings(bets.drop_last(), p, i);
    }
}

/// What `place_bet` does: the stake leaves the balance and the bet joins
/// the round when the balance covers it; otherwise nothing changes.
pub open spec fn placed(pre: Game, post: Game, bet: Bet, accepted: bool) -> bool {
    &&& accepted == (bet.amount <= pre.spec_balance())
    &&& accepted ==> post.spec_balance() == pre.spec_balance() - bet.amount && post.spec_bets()
        == pre.spec_bets().push(bet)
    &&& !accepted ==> post.spec_balance() == pre.spec_balance() && post.spec_bets()
        == pre.spec_bets()
}

/// What `clear_bets` does: every stake of the round goes back to the balance
/// and the round is emptied; with no bets there is nothing to clear.
pub open spec fn cleared(pre: Game, post: Game, refund: Option<u32>) -> bool {
    &&& post.spec_bets().len() == 0
    &&& post.spec_balance() == pre.spec_balance() + stake_sum(pre.spec_bets())
    &&& refund == if pre.spec_bets().len() == 0 {
        None
    } else {
        Some(stake_sum(pre.spec_bets()) as u32)
    }
}

/// What resolving the round against the pocket `p` does. With no bets it is
/// refused; where the winnings would overflow the balance it is refused too.
/// Otherwise every bet is settled, the winnings are credited, and the round
/// is emptied.
pub open spec fn resolved(pre: Game, post: Game, p: PocketView, r: Result<RoundReport, ResolveError>) -> bool {
    let bets = pre.spec_bets();
    let won = winnings_sum(bets, p);
    if bets.len() == 0 {
        &&& r == Err::<RoundReport, ResolveError>(ResolveError::NoBets)
        &&& post.spec_balance() == pre.spec_balance()
        &&& post.spec_bets() == bets
    } else if pre.spec_balance() + won > u32::MAX {
        &&& r == Err::<RoundReport, ResolveError>(ResolveError::BalanceOverflow)
        &&& post.spec_balance() == pre.spec_balance()
        &&& post.spec_bets() == bets
    } else {
        &&& r is Ok
        &&& r->Ok_0.pocket@ == p
        &&& outcomes_match(r->Ok_0.outcomes@, bets, p)
        &&& r->Ok_0.total_wagered == stake_sum(bets)
        &&& r->Ok_0.total_won == won
        &&& r->Ok_0.balance == post.spec_balance()
        &&& post.spec_balance() == pre.spec_balance() + won
        &&& post.spec_bets().len() == 0
    }
}

/// A winning bet pays back its stake times its multiplier plus the stake; a
/// losing bet adds nothing to what the round credits.
pub proof fn lemma_payout_rule(bets: Seq<Bet>, b: Bet, p: PocketView)
    ensures
        wins(b.bet_type, p) ==> winnings_sum(bets.push(b), p) == winnings_sum(bets, p) + b.amount
            * multiplier_of(b.bet_type) + b.amount,
        !wins(b.bet_type, p) ==> winnings_sum(bets.push(b), p) == winnings_sum(bets, p),
{
    lemma_winnings_sum_push(bets, b, p);
}

/// A run of placements: `states[i + 1]` is what placing `bets[i]` made of
/// `states[i]`, and `accepted[i]` is what that placement returned.
pub open spec fn is_placement_run(states: Seq<Game>, bets: Seq<Bet>, accepted: Seq<bool>) -> bool {
    &&& states.len() == bets.len() + 1
    &&& accepted.len() == bets.len()
    &&& forall|i: int|
        0 <= i < bets.len() ==> placed(states[i], states[i + 1], #[trigger] bets[i], accepted[i])
}

/// Along a run of placements the balance together with the stakes held stays
/// what it was.
proof fn lemma_placements_keep_funds(
    states: Seq<Game>,
    bets: Seq<Bet>,
    accepted: Seq<bool>,
    k: int,
)
    requires
        is_placement_run(states, bets, accepted),
        0 <= k <= bets.len(),
    ensures
        states[k].spec_balance() + stake_sum(states[k].spec_bets()) == states[0].spec_balance()
            + stake_sum(states[0].spec_bets()),
    decreases k,
{
    if k > 0 {
        lemma_placements_keep_funds(states, bets, accepted, k - 1);
        assert(placed(states[k - 1], states[k], bets[k - 1], accepted[k - 1]));
        lemma_stake_sum_push(states[k - 1].spec_bets(), bets[k - 1]);
    }
}

/// Placing bets on an empty round and then clearing them gives back exactly
/// the balance held before the first of them was placed, and leaves no stake
/// in the round.
pub proof fn lemma_place_then_clear_restores_balance(
    states: Seq<Game>,
    bets: Seq<Bet>,
    accepted: Seq<bool>,
    last: Game,
    refund: Option<u32>,
)
    requires
        is_placement_run(states, bets, accepted),
        states[0].spec_bets().len() == 0,
        cleared(states.last(), last, refund),
    ensures
        last.spec_balance() == states[0].spec_balance(),
        stake_sum(last.spec_bets()) == 0,
{
    lemma_placements_keep_funds(states, bets, accepted, bets.len() as int);
}

/// Placing bets on an empty round and then resolving it: the balance after
/// resolution is the balance held before the first bet, less what was
/// wagered, plus what was won.
pub proof fn lemma_round_balance(
    states: Seq<Game>,
    bets: Seq<Bet>,
    accepted: Seq<bool>,
    last: Game,
    p: PocketView,
    report: RoundReport,
)
    requires
        is_placement_run(states, bets, accepted),
        states[0].spec_bets().len() == 0,
        resolved(states.last(), last, p, Ok(report)),
    ensures
        last.spec_balance() == states[0].spec_balance() - report.total_wagered + report.total_won,
{
    lemma_placements_keep_funds(states, bets, accepted, bets.len() as int);
}

impl Game {
    /// A game on a fresh wheel, for a player holding `starting_balance`, with
    /// no bets placed.
    pub fn new(starting_balance: u32) -> (r: Self)
        ensures
            r.wf(),
            r.spec_balance() == starting_balance,
            r.spec_bets().len() == 0,
            is_standard_wheel(r.spec_wheel()@),
    {
        Game { player: Player::new(starting_balance), wheel: Wheel::new(), current_bets: Vec::new() }
    }

    /// The game's wheel.
    pub fn wheel(&self) -> (r: &Wheel)
        requires
            self.wf(),
        ensures
            r.wf(),
            *r == self.spec_wheel(),
    {
        &self.wheel
    }

    /// The player's balance.
    pub fn get_player_balance(&self) -> (r: u32)
        ensures
            r == self.spec_balance(),
    {
        self.player.balance()
    }

    /// The bets of the round under way, in the order they were placed.
    pub fn get_current_bets(&self) -> (r: &[Bet])
        ensures
            r@ == self.spec_bets(),
    {
        self.current_bets.as_slice()
    }

    /// The sum of the stakes of the round under way.
    pub fn total_staked(&self) -> (r: u32)
        requires
            self.wf(),
        ensures
            r == stake_sum(self.spec_bets()),
    {
        let bets = &self.current_bets;
        let mut total: u32 = 0;
        let mut i: usize = 0;
        while i < bets.len()
            invariant
                i <= bets@.len(),
                total == stake_sum(bets@.take(i as int)),
                stake_sum(bets@) <= u32::MAX,
            decreases bets@.len() - i,
        {
            proof {
                lemma_stake_sum_push(bets@.take(i as int), bets@[i as int]);
                assert(bets@.take(i as int).push(bets@[i as int]) =~= bets@.take(i + 1));
                lemma_stake_sum_prefix(bets@, i + 1);
            }
            total = total + bets[i].amount;
            i = i + 1;
        }
        assert(bets@.take(i as int) =~= bets@);
        total
    }

    /// Places `bet`: its stake is taken from the balance and the bet joins the
    /// round, if the balance covers the stake. Says whether it did; if not,
    /// nothing changes.
    pub fn place_bet(&mut self, bet: Bet) -> (r: bool)
        requires
            old(self).wf(),
            bet.amount > 0,
        ensures
            final(self).wf(),
            final(self).spec_wheel() == old(self).spec_wheel(),
            placed(*old(self), *final(self), bet, r),
    {
        let ghost b = bet;
        if self.player.place_bet(bet.amount) {
            self.current_bets.push(bet);
            proof {
                lemma_stake_sum_push(old(self).current_bets@, b);
            }
            true
        } else {
            false
        }
    }

    /// Cancels the round: every stake goes back to the balance and the bets
    /// are dropped. Returns what was refunded, or `None` where there was
    /// nothing to clear.
    pub fn clear_bets(&mut self) -> (r: Option<u32>)
        requires
            old(self).wf(),
        ensures
            final(self).wf(),
            final(self).spec_wheel() == old(self).spec_wheel(),
            cleared(*old(self), *final(self), r),
    {
        if self.current_bets.len() == 0 {
            return None;
        }
        let total_refund = self.total_staked();
        self.player.refund_bet(total_refund);
        self.current_bets.clear();
        Some(total_refund)
    }

    /// Resolves the round against `pocket`, where the ball landed. Refused
    /// with no bets placed, or where the winnings would overflow the balance;
    /// nothing changes then. Otherwise every bet is settled in the order it
    /// was placed, the winnings are credited (where there are any), and the
    /// round is emptied for the next one.
    pub fn resolve_with(&mut self, pocket: &Pocket) -> (r: Result<RoundReport, ResolveError>)
        requires
            old(self).wf(),
        ensures
            final(self).wf(),
            final(self).spec_wheel() == old(self).spec_wheel(),
            resolved(*old(self), *final(self), pocket@, r),
    {
        if self.current_bets.len() == 0 {
            return Err(ResolveError::NoBets);
        }
        let ghost p = pocket@;
        let n = self.current_bets.len();
        let mut total_won: u64 = 0;
        let mut total_wagered: u64 = 0;
        let mut i: usize = 0;
        while i < n
            invariant
                n == self.current_bets@.len(),
                p == pocket@,
                self.wf(),
                i <= n,
                total_won == winnings_sum(self.current_bets@.take(i as int), p),
                total_wagered == stake_sum(self.current_bets@.take(i as int)),
            decreases n - i,
        {
            let ghost bets = self.current_bets@;
            let bet = &self.current_bets[i];
            proof {
                lemma_stake_sum_push(bets.take(i as int), bets[i as int]);
                lemma_winnings_sum_push(bets.take(i as int), bets[i as int], p);
                assert(bets.take(i as int).push(bets[i as int]) =~= bets.take(i + 1));
                lemma_stake_sum_prefix(bets, i + 1);
                lemma_winnings_bounded(bets.take(i + 1), p);
            }
            let won = bet.check_win(pocket);
            if won {
                let m = payout_multiplier(&bet.bet_type) as u64;
                let a = bet.amount as u64;
                assert(a * m <= a * 35) by (nonlinear_arith)
                    requires
                        m <= 35,
                ;
                total_won = total_won + (a * m + a);
            }
            total_wagered = total_wagered + bet.amount as u64;
            i = i + 1;
        }
        let ghost bets = self.current_bets@;
        assert(bets.take(n as int) =~= bets);
        proof {
            lemma_winnings_bounded(bets, p);
        }
        if self.player.balance() as u64 + total_won > u32::MAX as u64 {
            return Err(ResolveError::BalanceOverflow);
        }
        let mut outcomes: Vec<BetOutcome> = Vec::new();
        let mut j: usize = 0;
        while j < n
            invariant
                n == self.current_bets@.len(),
                bets == self.current_bets@,
                p == pocket@,
                j <= n,
                total_won == winnings_sum(bets, p),
                self.player@ + total_won <= u32::MAX,
                outcomes@.len() == j,
                forall|k: int|
                    0 <= k < j ==> (#[trigger] outcomes@[k]).bet == bets[k] && outcomes@[k].won
                        == wins(bets[k].bet_type, p) && outcomes@[k].payout == return_of(
                        bets[k],
                        p,
                    ),
            decreases n - j,
        {
            let bet = self.current_bets[j].clone();
            let won = bet.check_win(pocket);
            proof {
                lemma_return_within_winnings(bets, p, j as int);
            }
            let payout = if won {
                bet.calculate_payout()
            } else {
                0
            };
            outcomes.push(BetOutcome { bet, won, payout });
            j = j + 1;
        }
        if total_won > 0 {
            self.player.add_winnings(total_won as u32);
        }
        self.current_bets.clear();
        Ok(
            RoundReport {
                pocket: pocket.clone(),
                outcomes,
                total_wagered: total_wagered as u32,
                total_won: total_won as u32,
                balance: self.player.balance(),
            },
        )
    }

    /// Spins the wheel and resolves the round against the pocket drawn, as
    /// `resolve_with` does. With no bets placed the wheel is not spun and the
    /// round stays open.
    pub fn spin_wheel_and_resolve(&mut self) -> (r: Result<RoundReport, ResolveError>)
        requires
            old(self).wf(),
        ensures
            final(self).wf(),
            final(self).spec_wheel() == old(self).spec_wheel(),
            old(self).spec_bets().len() == 0 ==> r == Err::<RoundReport, ResolveError>(
                ResolveError::NoBets,
            ) && final(self).spec_balance() == old(self).spec_balance() && final(self).spec_bets()
                == old(self).spec_bets(),
            old(self).spec_bets().len() > 0 ==> exists|i: int|
                0 <= i < 37 && resolved(
                    *old(self),
                    *final(self),
                    #[trigger] old(self).spec_wheel()@[i],
                    r,
                ),
    {
        if self.current_bets.len() == 0 {
            return Err(ResolveError::NoBets);
        }
        let winning_pocket = self.wheel.spin();
        self.resolve_with(&winning_pocket)
    }
}

} // verus!
