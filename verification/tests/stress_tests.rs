use bevpg::combat::CombatState;
use bevpg::game::{Game, Input, Lifecycle};
use bevpg::mode::GameState;
use bevpg::timer::{Timer, TimerMode};

/// A small linear congruential generator, so that the runs repeat.
struct Lcg(u64);

impl Lcg {
    fn next(&mut self) -> u64 {
        self.0 = self.0.wrapping_mul(6364136223846793005).wrapping_add(1442695040888963407);
        self.0 >> 33
    }

    fn flip(&mut self, one_in: u64) -> bool {
        self.next() % one_in == 0
    }
}

#[test]
fn a_long_random_game_keeps_its_shape() {
    let mut rng = Lcg(42);
    let mut game = Game::new();
    let mut xp = 0;
    let mut entered = 0;
    let mut exited = 0;
    for _ in 0..20_000 {
        let input = Input {
            delta: 1_000_000 + rng.next() % 120_000_000,
            start: rng.flip(50),
            fight: rng.flip(3),
            run: rng.flip(400),
            displaced: rng.flip(2),
            over_encounter: rng.flip(2),
            dismiss: rng.flip(20),
            interact: rng.flip(20),
            npc_in_reach: rng.flip(4),
        };
        assert!(game.accepts(&input));
        let depth_before = game.modes().modes().len();
        let report = game.tick(input);

        let modes = game.modes().modes();
        assert!(!modes.is_empty());
        assert_eq!(modes[0], GameState::MainMenu);
        assert_eq!(game.current(), *modes.last().expect("never empty"));
        let pushes = report
            .lifecycle
            .iter()
            .filter(|step| matches!(step, Lifecycle::Entered(_)))
            .count();
        let pops = report
            .lifecycle
            .iter()
            .filter(|step| matches!(step, Lifecycle::Exited(_)))
            .count();
        assert_eq!(modes.len() + pops, depth_before + pushes);
        entered += report
            .lifecycle
            .iter()
            .filter(|step| **step == Lifecycle::Entered(GameState::Combat))
            .count();
        exited += report
            .lifecycle
            .iter()
            .filter(|step| **step == Lifecycle::Exited(GameState::Combat))
            .count();

        if let Some(world) = game.overworld() {
            assert!(world.stats.is_valid());
            assert!(world.player.xp >= xp);
            assert_eq!(world.player.xp % 10, 0);
            if report.victory {
                assert_eq!(world.player.xp, xp + 10);
            } else if !report.lifecycle.contains(&Lifecycle::Entered(GameState::Overworld)) {
                assert_eq!(world.player.xp, xp);
            }
            xp = world.player.xp;
            let armed = world.encounter.timer().duration();
            assert!(1_000_000_000 <= armed && armed <= 3_000_000_000);
        } else {
            xp = 0;
        }
        if let Some(combat) = game.combat() {
            assert!(combat.enemy().is_valid());
            assert_eq!(combat.pending(), 0);
            assert!(combat.effects().timer().elapsed() < combat.effects().timer().duration());
            if combat.enemy().health == 0 {
                assert_eq!(combat.phase(), CombatState::Success);
            }
        }
        assert_eq!(game.combat().is_some(), entered > exited);
        for fade in game.fades() {
            assert!(fade.timer().elapsed() < fade.timer().duration());
            assert_eq!(fade.sent(), fade.timer().past_half());
        }
    }
    assert!(entered > 0);
}

#[test]
fn a_repeating_timer_agrees_with_plain_arithmetic() {
    let mut rng = Lcg(7);
    for _ in 0..2_000 {
        let duration = 1 + rng.next() % 5_000_000_000;
        let mut timer = Timer::new(duration, TimerMode::Repeating);
        let mut elapsed: u128 = 0;
        for _ in 0..20 {
            let delta = rng.next() % (3 * duration);
            assert!(timer.fits(delta));
            timer.tick(delta);
            let total = elapsed + delta as u128;
            elapsed = total % duration as u128;
            assert_eq!(timer.elapsed() as u128, elapsed);
            assert_eq!(timer.times_finished_this_tick() as u128, total / duration as u128);
            assert_eq!(timer.just_finished(), total >= duration as u128);
            assert_eq!(timer.finished(), total >= duration as u128);
            assert_eq!(timer.past_half(), 2 * elapsed > duration as u128);
        }
    }
}

#[test]
fn a_one_shot_timer_agrees_with_plain_arithmetic() {
    let mut rng = Lcg(11);
    for _ in 0..2_000 {
        let duration = 1 + rng.next() % 5_000_000_000;
        let mut timer = Timer::new(duration, TimerMode::Once);
        let mut total: u128 = 0;
        let mut done = false;
        for _ in 0..20 {
            let delta = rng.next() % duration;
            timer.tick(delta);
            total += delta as u128;
            let ends = !done && total >= duration as u128;
            done = done || ends;
            assert_eq!(timer.elapsed() as u128, total.min(duration as u128));
            assert_eq!(timer.just_finished(), ends);
            assert_eq!(timer.times_finished_this_tick(), u32::from(ends));
            assert_eq!(timer.finished(), done);
        }
    }
}

#[test]
fn the_timers_of_the_engine_take_the_largest_ticks() {
    let mut timer = Timer::new(u64::MAX, TimerMode::Once);
    timer.tick(u64::MAX - 1);
    assert!(!timer.finished());
    timer.tick(u64::MAX);
    assert!(timer.finished());
    assert_eq!(timer.elapsed(), u64::MAX);

    let mut timer = Timer::new(u64::MAX, TimerMode::Repeating);
    timer.tick(u64::MAX - 1);
    assert!(timer.fits(u64::MAX));
    timer.tick(u64::MAX);
    assert_eq!(timer.times_finished_this_tick(), 1);
    assert_eq!(timer.elapsed(), u64::MAX - 1);

    let mut timer = Timer::new(1, TimerMode::Repeating);
    assert!(timer.fits(u32::MAX as u64));
    assert!(!timer.fits(u32::MAX as u64 + 1));
    timer.tick(u32::MAX as u64);
    assert_eq!(timer.times_finished_this_tick(), u32::MAX);
    assert_eq!(timer.elapsed(), 0);
}

#[test]
fn set_duration_keeps_the_elapsed_time() {
    let mut timer = Timer::new(1_000, TimerMode::Repeating);
    timer.tick(900);
    timer.set_duration(400);
    assert_eq!(timer.duration(), 400);
    assert_eq!(timer.elapsed(), 900);
    assert!(!timer.just_finished());
    timer.tick(0);
    assert_eq!(timer.times_finished_this_tick(), 2);
    assert_eq!(timer.elapsed(), 100);
}
