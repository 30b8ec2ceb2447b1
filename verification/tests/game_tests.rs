use fortune_bayes::Bayes1;
use fortune_bayes::FFFortuneMachine;
use fortune_bayes::FFortuneMachine;
use fortune_bayes::FortuneGame;
use fortune_bayes::FortuneGameParameters;
use fortune_bayes::FortuneMachine;
use fortune_bayes::LotResult;
use rand_pcg::Mcg128Xsl64;

#[test]
fn level_five_always_wins() {
    let mut rng = Mcg128Xsl64::new(1);
    let fm = FortuneMachine::new(5);
    for _ in 0..100 {
        assert_eq!(fm.sample(&mut rng), LotResult::Win);
    }
}

#[test]
fn level_zero_always_loses() {
    let mut rng = Mcg128Xsl64::new(1);
    let fm = FortuneMachine::new(0);
    for _ in 0..100 {
        assert_eq!(fm.sample(&mut rng), LotResult::Lose);
    }
}

#[test]
fn empirical_rate_tracks_level() {
    let n: i64 = 5000;
    for level in 0u8..=5u8 {
        let mut rng = Mcg128Xsl64::new(7 + level as u128);
        let fm = FortuneMachine::new(level);
        let mut wins: i64 = 0;
        for _ in 0..n {
            if fm.sample(&mut rng) == LotResult::Win {
                wins += 1;
            }
        }
        let expected = n * level as i64 / 5;
        let tolerance = if level == 0 || level == 5 { 0 } else { n / 20 };
        assert!(
            (wins - expected).abs() <= tolerance,
            "level {}: {} wins out of {}",
            level,
            wins,
            n
        );
    }
}

#[test]
fn degenerate_prior_always_yields_top_machine() {
    let g = FFortuneMachine::new([0, 0, 0, 0, 0, 7]);
    for seed in 0..50u128 {
        let mut rng = Mcg128Xsl64::new(seed);
        let m = g.sample(&mut rng);
        assert_eq!(m.level, 5);
        assert_eq!(m.sample(&mut rng), LotResult::Win);
    }
}

#[test]
fn mixed_prior_only_yields_positive_weight_levels() {
    let g = FFortuneMachine::new([3, 0, 0, 0, 0, 1]);
    for seed in 0..100u128 {
        let mut rng = Mcg128Xsl64::new(seed);
        let m = g.sample(&mut rng);
        assert!(m.level == 0 || m.level == 5);
    }
}

#[test]
fn meta_generator_yields_uniform_prior() {
    let mut rng = Mcg128Xsl64::new(1);
    let meta = FFFortuneMachine::AlwaysUniform;
    let g = meta.sample(&mut rng);
    assert_eq!(g.dist, [1, 1, 1, 1, 1, 1]);
}

#[test]
fn uniform_posterior_has_equal_weights() {
    let b = Bayes1::uniform();
    assert_eq!(b.p, [1, 1, 1, 1, 1, 1]);
}

#[test]
fn one_win_update_from_uniform() {
    let mut b = Bayes1::uniform();
    b.new_draw(LotResult::Win);
    assert_eq!(b.p, [0, 1, 2, 3, 4, 5]);
}

#[test]
fn one_lose_update_from_uniform() {
    let mut b = Bayes1::uniform();
    b.new_draw(LotResult::Lose);
    assert_eq!(b.p, [5, 4, 3, 2, 1, 0]);
}

#[test]
fn posterior_stays_a_distribution() {
    let mut rng = Mcg128Xsl64::new(11);
    let fm = FortuneMachine::new(3);
    let mut b = Bayes1::uniform();
    for _ in 0..10 {
        let r = fm.sample(&mut rng);
        // the caller's side of the update precondition: the exact new mass
        // must be positive and still representable
        let mass: u128 = (0..6u128)
            .map(|i| {
                let like = if r == LotResult::Win { i } else { 5 - i };
                b.p[i as usize] as u128 * like
            })
            .sum();
        assert!(mass >= 1 && mass <= u64::MAX as u128);
        b.new_draw(r);
        let total: u128 = b.p.iter().map(|&w| w as u128).sum();
        assert!(total >= 1, "posterior lost all mass");
    }
}

#[test]
fn posterior_mass_is_the_exact_update_total() {
    let b = Bayes1::uniform();
    assert_eq!(b.posterior_mass(LotResult::Win), 0 + 1 + 2 + 3 + 4 + 5);
    assert_eq!(b.posterior_mass(LotResult::Lose), 5 + 4 + 3 + 2 + 1 + 0);
    let c = Bayes1 { p: [7, 0, 0, 0, 0, 0] };
    assert_eq!(c.posterior_mass(LotResult::Win), 0);
    assert_eq!(c.posterior_mass(LotResult::Lose), 35);
}

#[test]
fn halve_floors_every_weight() {
    let mut b = Bayes1 { p: [0, 1, 2, 3, 4, 5] };
    b.halve();
    assert_eq!(b.p, [0, 0, 1, 1, 2, 2]);
}

#[test]
fn long_run_updates_with_rescaling_stay_a_distribution() {
    let mut rng = Mcg128Xsl64::new(19);
    let fm = FortuneMachine::new(4);
    let mut b = Bayes1::uniform();
    for _ in 0..300 {
        let r = fm.sample(&mut rng);
        loop {
            let mass = b.posterior_mass(r);
            assert!(mass >= 1, "update would leave zero mass");
            if mass <= u64::MAX as u128 {
                break;
            }
            assert!(b.p.iter().any(|&w| w >= 2));
            b.halve();
        }
        b.new_draw(r);
        let total: u128 = b.p.iter().map(|&w| w as u128).sum();
        assert!(total >= 1);
    }
    // after 300 draws from a level-4 machine the belief favors level 4
    let (m, _) = b.submit_expect(FortuneGameParameters::default());
    assert_eq!(m, 4);
}

#[test]
fn concentrated_posterior_recommends_top_level() {
    let b = Bayes1 { p: [0, 0, 0, 0, 0, 9] };
    for &(win, lose) in &[(1i64, -3i64), (10, -1), (-2, -5)] {
        let params = FortuneGameParameters { max_turn: 300, win_point: win, lose_point: lose };
        let (m, e) = b.submit_expect(params);
        assert_eq!(m, 5);
        assert_eq!(e.den, 9);
        // expected score num/den equals win_point exactly
        assert_eq!(e.num, 9 * win as i128);
    }
}

#[test]
fn uniform_posterior_recommends_first_level() {
    let b = Bayes1::uniform();
    let params = FortuneGameParameters::default();
    let (m, e) = b.submit_expect(params);
    assert_eq!(m, 0);
    assert_eq!(e.den, 6);
    assert_eq!(e.num, 1 * 1 + 5 * (-3));
}

#[test]
fn after_one_win_recommendation_is_top_level() {
    let mut b = Bayes1::uniform();
    b.new_draw(LotResult::Win);
    let params = FortuneGameParameters::default();
    let (m, e) = b.submit_expect(params);
    assert_eq!(m, 5);
    assert_eq!(e.den, 15);
    assert_eq!(e.num, 5 * 1 + 10 * (-3));
}

#[test]
fn default_parameters() {
    let p = FortuneGameParameters::default();
    assert_eq!(p.max_turn, 300);
    assert_eq!(p.win_point, 1);
    assert_eq!(p.lose_point, -3);
}

#[test]
fn submit_without_lottery_is_a_no_op() {
    let mut rng = Mcg128Xsl64::new(3);
    let mut meta = FFFortuneMachine::AlwaysUniform;
    let params = FortuneGameParameters::default();
    let mut game = FortuneGame::new(&mut rng, &mut meta, params);
    assert!(game.lottery().is_none());
    assert_eq!(game.submit(3), None);
    assert_eq!(game.current_point, 0);
    assert_eq!(game.current_turn, 0);
}

#[test]
fn draws_accumulate_statistics() {
    let mut rng = Mcg128Xsl64::new(5);
    let mut meta = FFFortuneMachine::AlwaysUniform;
    let params = FortuneGameParameters { max_turn: 10, win_point: 1, lose_point: -3 };
    let mut game = FortuneGame::new(&mut rng, &mut meta, params);
    for turn in 1..=3u32 {
        game.draw(&mut rng);
        assert_eq!(game.current_turn, turn);
        let lottery = game.lottery().expect("a draw starts an episode");
        assert_eq!(lottery.total_count, turn);
        assert!(lottery.win_count <= lottery.total_count);
    }
}

// Runs one single-turn session from the given seed: one draw, then a guess
// chosen by the caller from the revealed true level of an identical replayed
// session.
fn replay_session(seed: u128, guess_from_truth: impl Fn(u8) -> u8) -> (bool, u8, i64) {
    let params = FortuneGameParameters { max_turn: 1, win_point: 1, lose_point: -3 };
    // first pass: learn the hidden level by submitting anything
    let mut rng = Mcg128Xsl64::new(seed);
    let mut meta = FFFortuneMachine::AlwaysUniform;
    let mut probe = FortuneGame::new(&mut rng, &mut meta, params);
    probe.draw(&mut rng);
    let (_, truth) = probe.submit(6).expect("an episode was active");
    // second pass: the same seed replays the same episode
    let mut rng = Mcg128Xsl64::new(seed);
    let mut game = FortuneGame::new(&mut rng, &mut meta, params);
    game.draw(&mut rng);
    let (correct, revealed) = game.submit(guess_from_truth(truth)).expect("an episode was active");
    assert_eq!(revealed, truth);
    assert!(game.lottery().is_none());
    assert_eq!(game.submit(0), None);
    (correct, truth, game.current_point)
}

#[test]
fn correct_guess_scores_win_point() {
    let (correct, _, point) = replay_session(42, |truth| truth);
    assert!(correct);
    assert_eq!(point, 1);
}

#[test]
fn wrong_guess_scores_lose_point() {
    let (correct, _, point) = replay_session(43, |truth| (truth + 1) % 6);
    assert!(!correct);
    assert_eq!(point, -3);
}
