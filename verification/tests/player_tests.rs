use bevpg::combat::CombatStats;
use bevpg::mode::GameState;
use bevpg::player::{
    new_player, player_encounter_checker, player_movement, player_stats, start_encounter,
    EncounterTimer, Player,
};
use bevpg::timer::TimerMode;

#[test]
fn the_player_starts_active_and_without_experience() {
    assert_eq!(new_player(), Player { active: true, just_moved: false, xp: 0 });
    assert_eq!(
        player_stats(),
        CombatStats { max_health: 15, health: 15, attack: 3, defence: 1 }
    );
}

#[test]
fn only_an_active_player_moves() {
    let mut player = new_player();
    assert!(player_movement(&mut player, true));
    assert!(player.just_moved);
    assert!(!player_movement(&mut player, false));
    assert!(!player.just_moved);
    player.active = false;
    assert!(!player_movement(&mut player, true));
    assert_eq!(player, Player { active: false, just_moved: false, xp: 0 });
}

#[test]
fn the_first_encounter_is_a_second_away() {
    let timer = EncounterTimer::new();
    assert_eq!(timer.timer().duration(), 1_000_000_000);
    assert_eq!(timer.timer().elapsed(), 0);
    assert_eq!(timer.timer().mode(), TimerMode::Repeating);
    // the periods of one tick are counted in 32 bits
    assert!(timer.fits(4_294_967_295_999_999_999));
    assert!(!timer.fits(4_294_967_296_000_000_000));
}

#[test]
fn the_timer_rests_while_the_player_does_not_dwell() {
    let mut timer = EncounterTimer::new();
    let mut player = Player { active: true, just_moved: false, xp: 0 };
    // in the zone, but standing
    assert!(player_encounter_checker(&mut player, &mut timer, true, 5_000_000_000).is_none());
    assert_eq!(timer.timer().elapsed(), 0);
    // moving, but outside the zone
    player.just_moved = true;
    assert!(player_encounter_checker(&mut player, &mut timer, false, 5_000_000_000).is_none());
    assert_eq!(timer.timer().elapsed(), 0);
    assert!(player.active);
}

#[test]
fn an_encounter_needs_the_full_delay_in_the_zone() {
    let mut timer = EncounterTimer::new();
    let mut player = Player { active: true, just_moved: true, xp: 7 };
    for _ in 0..9 {
        assert!(player_encounter_checker(&mut player, &mut timer, true, 100_000_000).is_none());
        // time outside the zone, however long, does not count
        assert!(player_encounter_checker(&mut player, &mut timer, false, 900_000_000).is_none());
    }
    assert_eq!(timer.timer().elapsed(), 900_000_000);
    assert!(player.active);
    let fade = player_encounter_checker(&mut player, &mut timer, true, 100_000_000);
    let fade = fade.expect("the timer has run its second");
    assert_eq!(fade.next_state(), Some(GameState::Combat));
    assert!(!fade.sent());
    assert_eq!(player, Player { active: false, just_moved: true, xp: 7 });
    assert_eq!(timer.timer().elapsed(), 0);
}

#[test]
fn the_timer_is_armed_again_with_one_to_three_seconds() {
    for _ in 0..200 {
        let mut timer = EncounterTimer::new();
        let mut player = Player { active: true, just_moved: true, xp: 0 };
        let fade = player_encounter_checker(&mut player, &mut timer, true, 1_250_000_000);
        assert!(fade.is_some());
        let armed = timer.timer().duration();
        assert!(1_000_000_000 <= armed && armed <= 3_000_000_000);
        assert_eq!(armed % 1_000_000, 0);
        assert_eq!(timer.timer().elapsed(), 250_000_000);
    }
}

#[test]
fn the_delays_that_are_drawn_differ() {
    let mut seen = Vec::new();
    for _ in 0..64 {
        let mut timer = EncounterTimer::new();
        let mut player = Player { active: true, just_moved: true, xp: 0 };
        player_encounter_checker(&mut player, &mut timer, true, 1_000_000_000);
        let armed = timer.timer().duration();
        if !seen.contains(&armed) {
            seen.push(armed);
        }
    }
    assert!(seen.len() > 1);
}

#[test]
fn starting_an_encounter_takes_the_controls() {
    let mut timer = EncounterTimer::new();
    let mut player = Player { active: true, just_moved: true, xp: 3 };
    let fade = start_encounter(&mut player, &mut timer, 2500);
    assert_eq!(fade.next_state(), Some(GameState::Combat));
    assert_eq!(player, Player { active: false, just_moved: true, xp: 3 });
    assert_eq!(timer.timer().duration(), 2_500_000_000);
    timer.rearm(1000);
    assert_eq!(timer.timer().duration(), 1_000_000_000);
}
