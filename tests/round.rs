use wallstreet_roulette::bets::{
    create_black_bet, create_blue_chip_dozen_bet, create_category_bet, create_column_bet,
    create_even_bet, create_growth_dozen_bet, create_high_bet, create_low_bet, create_odd_bet,
    create_red_bet, create_straight_up, create_value_dozen_bet, payout_multiplier, Bet, BetError,
    BetType,
};
use wallstreet_roulette::game::{Game, ResolveError};
use wallstreet_roulette::player::Player;
use wallstreet_roulette::wheel::{Color, Pocket, Wheel};

fn pocket(wheel: &Wheel, number: u8) -> Pocket {
    wheel.get_pocket(number).unwrap().clone()
}

#[test]
fn single_number_win_pays_thirty_five_to_one() {
    let mut game = Game::new(1000);
    let ticker = game.wheel.get_pocket(17).unwrap().ticker.clone();
    let bet = create_straight_up(&ticker, 100, &game.wheel).unwrap();
    assert!(game.place_bet(bet));
    assert_eq!(game.get_player_balance(), 900);
    let p = pocket(&game.wheel, 17);
    let report = game.resolve_with(&p).unwrap();
    assert_eq!(report.outcomes.len(), 1);
    assert!(report.outcomes[0].won);
    assert_eq!(report.outcomes[0].payout, 3600);
    assert_eq!(report.total_won, 3600);
    assert_eq!(report.total_wagered, 100);
    assert_eq!(report.balance, 4500);
    assert_eq!(game.get_player_balance(), 4500);
    assert!(game.get_current_bets().is_empty());
}

#[test]
fn zero_beats_red_and_low() {
    let mut game = Game::new(1000);
    assert!(game.place_bet(create_red_bet(50)));
    assert!(game.place_bet(create_low_bet(50)));
    assert_eq!(game.get_player_balance(), 900);
    let zero = pocket(&game.wheel, 0);
    assert_eq!(zero.color, Color::Green);
    let report = game.resolve_with(&zero).unwrap();
    assert!(!report.outcomes[0].won);
    assert!(!report.outcomes[1].won);
    assert_eq!(report.total_won, 0);
    assert_eq!(report.total_wagered, 100);
    assert_eq!(game.get_player_balance(), 900);
    assert!(game.get_current_bets().is_empty());
}

#[test]
fn zero_stake_is_rejected() {
    let game = Game::new(1000);
    assert_eq!(
        Bet::try_new(BetType::Red, 0, &game.wheel).unwrap_err(),
        BetError::ZeroStake
    );
    assert!(create_column_bet(1, 0).is_none());
    let ticker = game.wheel.get_pocket(5).unwrap().ticker.clone();
    assert!(create_straight_up(&ticker, 0, &game.wheel).is_none());
    assert!(game.get_current_bets().is_empty());
    assert_eq!(game.get_player_balance(), 1000);
}

#[test]
fn resolving_an_empty_round_is_refused() {
    let mut game = Game::new(1000);
    assert_eq!(game.spin_wheel_and_resolve().unwrap_err(), ResolveError::NoBets);
    let p = pocket(&game.wheel, 3);
    assert_eq!(game.resolve_with(&p).unwrap_err(), ResolveError::NoBets);
    assert_eq!(game.get_player_balance(), 1000);
    assert!(game.place_bet(create_odd_bet(10)));
    assert_eq!(game.get_current_bets().len(), 1);
}

#[test]
fn payout_is_stake_times_multiplier_plus_stake() {
    assert_eq!(Bet::new(BetType::StraightUp("AAPL".to_string()), 100).calculate_payout(), 3600);
    assert_eq!(
        Bet::new(BetType::Split("AAPL".to_string(), "MSFT".to_string()), 10).calculate_payout(),
        180
    );
    assert_eq!(create_red_bet(7).calculate_payout(), 14);
    assert_eq!(create_column_bet(2, 30).unwrap().calculate_payout(), 90);
    assert_eq!(create_growth_dozen_bet(5).calculate_payout(), 15);
}

#[test]
fn multiplier_table() {
    assert_eq!(payout_multiplier(&BetType::StraightUp("KO".to_string())), 35);
    assert_eq!(payout_multiplier(&BetType::Split("KO".to_string(), "PEP".to_string())), 17);
    for t in [BetType::Red, BetType::Black, BetType::Odd, BetType::Even, BetType::Low, BetType::High] {
        assert_eq!(payout_multiplier(&t), 1);
    }
    for t in [
        BetType::Column(1),
        BetType::Category("Energy".to_string()),
        BetType::GrowthDozen,
        BetType::ValueDozen,
        BetType::BlueChipDozen,
    ] {
        assert_eq!(payout_multiplier(&t), 2);
    }
}

#[test]
fn losing_bet_is_not_credited() {
    let mut game = Game::new(500);
    assert!(game.place_bet(create_even_bet(100)));
    assert!(game.place_bet(create_high_bet(100)));
    // 21 is odd and high.
    let p = pocket(&game.wheel, 21);
    let report = game.resolve_with(&p).unwrap();
    assert!(!report.outcomes[0].won);
    assert_eq!(report.outcomes[0].payout, 0);
    assert!(report.outcomes[1].won);
    assert_eq!(report.outcomes[1].payout, 200);
    assert_eq!(report.total_won, 200);
    assert_eq!(game.get_player_balance(), 500);
}

#[test]
fn outer_bets_lose_on_zero() {
    let wheel = Wheel::new();
    let zero = pocket(&wheel, 0);
    let outer = [
        create_red_bet(1),
        create_black_bet(1),
        create_odd_bet(1),
        create_even_bet(1),
        create_low_bet(1),
        create_high_bet(1),
        create_growth_dozen_bet(1),
        create_value_dozen_bet(1),
        create_blue_chip_dozen_bet(1),
        create_column_bet(1, 1).unwrap(),
        create_column_bet(2, 1).unwrap(),
        create_column_bet(3, 1).unwrap(),
        create_category_bet("Recession", 1, &wheel).unwrap(),
    ];
    for b in outer.iter() {
        assert!(!b.check_win(&zero));
    }
    let own = create_straight_up(&zero.ticker, 1, &wheel).unwrap();
    assert!(own.check_win(&zero));
}

#[test]
fn each_number_lies_in_one_column() {
    let wheel = Wheel::new();
    let columns = [
        create_column_bet(1, 1).unwrap(),
        create_column_bet(2, 1).unwrap(),
        create_column_bet(3, 1).unwrap(),
    ];
    for n in 1..=36u8 {
        let p = pocket(&wheel, n);
        let hits: Vec<usize> = (0..3).filter(|&c| columns[c].check_win(&p)).collect();
        assert_eq!(hits.len(), 1);
        let expected = match n % 3 {
            1 => 0,
            2 => 1,
            _ => 2,
        };
        assert_eq!(hits[0], expected);
    }
    assert!(create_column_bet(0, 1).is_none());
    assert!(create_column_bet(4, 1).is_none());
}

#[test]
fn place_then_clear_restores_balance() {
    let mut game = Game::new(300);
    assert!(game.place_bet(create_red_bet(100)));
    assert!(game.place_bet(create_low_bet(150)));
    assert!(!game.place_bet(create_high_bet(100)));
    assert_eq!(game.get_player_balance(), 50);
    assert_eq!(game.total_staked(), 250);
    assert_eq!(game.clear_bets(), Some(250));
    assert_eq!(game.total_staked(), 0);
    assert_eq!(game.get_player_balance(), 300);
    assert_eq!(game.clear_bets(), None);
    assert_eq!(game.get_player_balance(), 300);
}

#[test]
fn resolution_conserves_balance() {
    let mut game = Game::new(1000);
    let before = game.get_player_balance();
    assert!(game.place_bet(create_black_bet(40)));
    assert!(game.place_bet(create_column_bet(3, 60).unwrap()));
    assert!(game.place_bet(create_odd_bet(25)));
    // 33 is black, odd, and in the third column.
    let p = pocket(&game.wheel, 33);
    assert_eq!(p.color, Color::Black);
    let report = game.resolve_with(&p).unwrap();
    assert_eq!(report.total_wagered, 125);
    assert_eq!(report.total_won, 80 + 180 + 50);
    assert_eq!(
        game.get_player_balance() as i64,
        before as i64 - report.total_wagered as i64 + report.total_won as i64
    );
}

#[test]
fn insufficient_balance_leaves_round_unchanged() {
    let mut game = Game::new(50);
    assert!(!game.place_bet(create_red_bet(51)));
    assert_eq!(game.get_player_balance(), 50);
    assert!(game.get_current_bets().is_empty());
    assert!(game.place_bet(create_red_bet(50)));
    assert_eq!(game.get_player_balance(), 0);
}

#[test]
fn winnings_beyond_the_balance_limit_are_refused() {
    let mut game = Game::new(u32::MAX);
    let ticker = game.wheel.get_pocket(8).unwrap().ticker.clone();
    let bet = create_straight_up(&ticker, 1_000_000, &game.wheel).unwrap();
    assert!(game.place_bet(bet));
    let p = pocket(&game.wheel, 8);
    assert_eq!(game.resolve_with(&p).unwrap_err(), ResolveError::BalanceOverflow);
    assert_eq!(game.get_current_bets().len(), 1);
    assert_eq!(game.clear_bets(), Some(1_000_000));
    assert_eq!(game.get_player_balance(), u32::MAX);
}

#[test]
fn bet_construction_errors() {
    let wheel = Wheel::new();
    assert_eq!(
        Bet::try_new(BetType::StraightUp("ZZZZ".to_string()), 5, &wheel).unwrap_err(),
        BetError::UnknownTicker
    );
    assert_eq!(
        Bet::try_new(BetType::Split("AAPL".to_string(), "AAPL".to_string()), 5, &wheel).unwrap_err(),
        BetError::RepeatedTicker
    );
    assert_eq!(
        Bet::try_new(BetType::Split("AAPL".to_string(), "NOPE".to_string()), 5, &wheel).unwrap_err(),
        BetError::UnknownTicker
    );
    assert_eq!(
        Bet::try_new(BetType::Category("Crypto".to_string()), 5, &wheel).unwrap_err(),
        BetError::UnknownCategory
    );
    assert_eq!(
        Bet::try_new(BetType::Column(7), 5, &wheel).unwrap_err(),
        BetError::InvalidColumn
    );
    let split = Bet::try_new(BetType::Split("AAPL".to_string(), "MSFT".to_string()), 5, &wheel).unwrap();
    assert_eq!(split.amount, 5);
    assert!(create_straight_up("ZZZZ", 5, &wheel).is_none());
    assert!(create_category_bet("Crypto", 5, &wheel).is_none());
    let energy = create_category_bet("Energy", 5, &wheel).unwrap();
    assert_eq!(energy.bet_type, BetType::Category("Energy".to_string()));
}

#[test]
fn wheel_layout() {
    let wheel = Wheel::new();
    let pockets = wheel.get_all_pockets();
    assert_eq!(pockets.len(), 37);
    let order: [u8; 37] = [
        0, 32, 15, 19, 4, 21, 2, 25, 17, 34, 6, 27, 13, 36, 11, 30, 8, 23, 10, 5, 24, 16, 33, 1,
        20, 14, 31, 9, 22, 18, 29, 7, 28, 12, 35, 3, 26,
    ];
    let reds = [1u8, 3, 5, 7, 9, 12, 14, 16, 18, 19, 21, 23, 25, 27, 30, 32, 34, 36];
    for (i, p) in pockets.iter().enumerate() {
        assert_eq!(p.number, order[i]);
        let color = if p.number == 0 {
            Color::Green
        } else if reds.contains(&p.number) {
            Color::Red
        } else {
            Color::Black
        };
        assert_eq!(p.color, color);
        assert_eq!(p.categories.last().unwrap(), &p.ticker);
    }
    for n in 0..37u8 {
        assert_eq!(wheel.get_pocket(n).unwrap().number, n);
    }
    assert!(wheel.get_pocket(37).is_none());
    assert!(wheel.get_pocket(255).is_none());
    assert_eq!(wheel.get_pocket(0).unwrap().ticker, "RCSN");
    assert_eq!(Wheel::get_pocket_definitions().len(), 37);
    assert_eq!(Wheel::default().get_all_pockets(), pockets);
}

#[test]
fn spin_lands_on_a_pocket_of_the_wheel() {
    let wheel = Wheel::new();
    let mut seen = [false; 37];
    for _ in 0..2000 {
        let p = wheel.spin();
        assert!(p.number < 37);
        assert_eq!(&p, wheel.get_pocket(p.number).unwrap());
        seen[p.number as usize] = true;
    }
    assert!(seen.iter().filter(|&&s| s).count() > 1);
}

#[test]
fn spin_and_resolve_settles_the_round() {
    let mut game = Game::new(1000);
    assert!(game.place_bet(create_red_bet(10)));
    assert!(game.place_bet(create_black_bet(10)));
    let report = game.spin_wheel_and_resolve().unwrap();
    assert_eq!(report.total_wagered, 20);
    let expected = if report.pocket.number == 0 { 0 } else { 20 };
    assert_eq!(report.total_won, expected);
    assert_eq!(game.get_player_balance(), 980 + expected);
    assert!(game.get_current_bets().is_empty());
}

#[test]
fn dozen_and_category_bets_follow_labels() {
    let wheel = Wheel::new();
    let growth = create_growth_dozen_bet(1);
    let value = create_value_dozen_bet(1);
    let blue = create_blue_chip_dozen_bet(1);
    let tech = create_category_bet("Technology", 1, &wheel).unwrap();
    for p in wheel.get_all_pockets().iter() {
        let has = |l: &str| p.number != 0 && p.categories.iter().any(|c| c == l);
        assert_eq!(growth.check_win(p), has("Growth Dozen A"));
        assert_eq!(value.check_win(p), has("Value Dozen B"));
        assert_eq!(blue.check_win(p), has("Blue Chip Dozen C"));
        assert_eq!(tech.check_win(p), has("Technology"));
    }
    let aapl = wheel.get_all_pockets().iter().find(|p| p.ticker == "AAPL").unwrap();
    assert!(growth.check_win(aapl));
    assert!(tech.check_win(aapl));
    let split = Bet::new(BetType::Split("AAPL".to_string(), "XOM".to_string()), 1);
    assert!(split.check_win(aapl));
}

#[test]
fn player_account() {
    let mut player = Player::new(100);
    assert_eq!(player.balance(), 100);
    assert!(player.place_bet(60));
    assert_eq!(player.balance(), 40);
    assert!(!player.place_bet(41));
    assert_eq!(player.balance(), 40);
    player.add_winnings(120);
    assert_eq!(player.balance(), 160);
    player.refund_bet(60);
    assert_eq!(player.balance(), 220);
}

#[test]
fn dozen_bets_win_on_their_tickers() {
    let wheel = Wheel::new();
    let groups: [(Bet, [&str; 7]); 3] = [
        (create_growth_dozen_bet(1), ["AAPL", "MSFT", "GOOGL", "AMZN", "NVDA", "META", "TSLA"]),
        (create_value_dozen_bet(1), ["XOM", "CVX", "COP", "2222.SR", "PTR", "", ""]),
        (create_blue_chip_dozen_bet(1), ["JPM", "BRK-A", "WFC", "V", "MA", "", ""]),
    ];
    for (bet, tickers) in groups.iter() {
        let winners: Vec<&str> = wheel
            .get_all_pockets()
            .iter()
            .filter(|p| bet.check_win(p))
            .map(|p| p.ticker.as_str())
            .collect();
        let expected: Vec<&str> = tickers.iter().copied().filter(|t| !t.is_empty()).collect();
        assert_eq!(winners, expected);
    }
}

#[test]
fn definitions_have_distinct_tickers_and_names() {
    let defs = Wheel::get_pocket_definitions();
    assert_eq!(defs.len(), 37);
    for (i, d) in defs.iter().enumerate() {
        assert!(!d.display_name.is_empty());
        assert_eq!(d.number, 0);
        assert_eq!(d.color, Color::Red);
        assert!(d.categories.contains(&d.ticker));
        for e in defs.iter().skip(i + 1) {
            assert_ne!(d.ticker, e.ticker);
        }
    }
    assert_eq!(defs[0].ticker, "RCSN");
    assert_eq!(defs[1].ticker, "AAPL");
    assert_eq!(defs[36].ticker, "GM");
    let wheel = Wheel::new();
    for (d, p) in defs.iter().zip(wheel.get_all_pockets().iter()) {
        assert_eq!(d.ticker, p.ticker);
        assert_eq!(d.display_name, p.display_name);
        assert_eq!(d.categories, p.categories);
    }
}

#[test]
fn game_exposes_its_wheel() {
    let game = Game::new(10);
    assert_eq!(game.wheel().get_all_pockets().len(), 37);
    let t = game.wheel().get_pocket(17).unwrap().ticker.clone();
    assert!(create_straight_up(&t, 5, game.wheel()).is_some());
    assert_eq!(
        Bet::try_new(BetType::Column(0), 5, game.wheel()).unwrap_err(),
        BetError::InvalidColumn
    );
}
