use bevpg::combat::CombatState;
use bevpg::game::{Game, Input, Lifecycle};
use bevpg::menu::MainMenu;
use bevpg::mode::GameState;
use bevpg::transition::ModeChange;

const FRAME: u64 = 100_000_000;

fn tick(game: &mut Game, input: Input) -> bevpg::game::TickReport {
    assert!(game.accepts(&input));
    game.tick(input)
}

/// Ticks the game with no input until no fade is left on the screen.
fn settle(game: &mut Game) -> Vec<Lifecycle> {
    let mut seen = Vec::new();
    while !game.fades().is_empty() {
        seen.extend(tick(game, Input::idle(FRAME)).lifecycle);
    }
    seen
}

fn walk() -> Input {
    Input { displaced: true, over_encounter: true, ..Input::idle(FRAME) }
}

/// A game that has gone from the menu through the overworld into a fight.
fn game_in_combat() -> Game {
    let mut game = Game::new();
    let report = tick(&mut game, Input { start: true, ..Input::idle(FRAME) });
    assert!(report.started);
    settle(&mut game);
    assert_eq!(game.current(), GameState::Overworld);
    let mut met = false;
    for _ in 0..10 {
        met = tick(&mut game, walk()).encounter;
    }
    assert!(met);
    settle(&mut game);
    assert_eq!(game.current(), GameState::Combat);
    game
}

#[test]
fn the_game_opens_in_the_main_menu() {
    let game = Game::new();
    assert_eq!(game.current(), GameState::MainMenu);
    assert_eq!(game.modes().modes(), vec![GameState::MainMenu]);
    assert_eq!(game.menu(), MainMenu { visible: true, start_disabled: false });
    assert!(game.overworld().is_none());
    assert!(game.combat().is_none());
    assert!(game.fades().is_empty());
}

#[test]
fn the_start_button_leads_to_the_overworld() {
    let mut game = Game::new();
    let report = tick(&mut game, Input { start: true, ..Input::idle(FRAME) });
    assert!(report.started);
    assert_eq!(game.fades().len(), 1);
    assert!(game.menu().start_disabled);
    // a second click does nothing more
    let report = tick(&mut game, Input { start: true, ..Input::idle(FRAME) });
    assert!(!report.started);
    assert_eq!(game.fades().len(), 1);
    // the mode changes when the new fade is past its half
    let mut ticks = 2;
    loop {
        let report = tick(&mut game, Input::idle(FRAME));
        ticks += 1;
        if !report.lifecycle.is_empty() {
            assert_eq!(
                report.lifecycle,
                vec![
                    Lifecycle::Paused(GameState::MainMenu),
                    Lifecycle::Entered(GameState::Overworld),
                ]
            );
            break;
        }
    }
    assert_eq!(ticks, 7);
    assert_eq!(game.modes().modes(), vec![GameState::MainMenu, GameState::Overworld]);
    assert!(!game.menu().visible);
    let world = game.overworld().expect("the overworld was entered");
    assert!(world.visible);
    assert_eq!(world.player.xp, 0);
    assert_eq!(settle(&mut game), vec![]);
    assert_eq!(game.current(), GameState::Overworld);
}

#[test]
fn entering_combat_starts_in_the_players_turn() {
    let game = game_in_combat();
    assert_eq!(
        game.modes().modes(),
        vec![GameState::MainMenu, GameState::Overworld, GameState::Combat]
    );
    let combat = game.combat().expect("combat was entered");
    assert_eq!(combat.phase(), CombatState::PlayerTurn);
    assert_eq!(combat.enemy().health, 7);
    let world = game.overworld().expect("the overworld is paused, not gone");
    assert!(!world.visible);
    assert!(!world.player.active);
}

#[test]
fn a_pop_fade_leaves_combat_and_resumes_the_overworld() {
    let mut game = game_in_combat();
    game.request_transition(None);
    let seen = settle(&mut game);
    assert_eq!(
        seen,
        vec![Lifecycle::Exited(GameState::Combat), Lifecycle::Resumed(GameState::Overworld)]
    );
    assert_eq!(game.modes().modes(), vec![GameState::MainMenu, GameState::Overworld]);
    assert!(game.combat().is_none());
    let world = game.overworld().expect("the overworld is back");
    assert!(world.visible);
    assert!(world.player.active);
    assert!(game.fades().is_empty());
}

#[test]
fn leaving_combat_removes_the_fight_in_any_phase() {
    let mut game = game_in_combat();
    tick(&mut game, Input { fight: true, ..Input::idle(FRAME) });
    assert_eq!(game.combat().map(|c| c.phase()), Some(CombatState::PlayerAttack));
    let mut log = Vec::new();
    assert!(game.change_mode(ModeChange::Pop, &mut log));
    assert!(game.combat().is_none());
    assert_eq!(game.current(), GameState::Overworld);
    // the next fight is a new one
    assert!(game.change_mode(ModeChange::Push(GameState::Combat), &mut log));
    let combat = game.combat().expect("combat was entered again");
    assert_eq!(combat.phase(), CombatState::PlayerTurn);
    assert_eq!(combat.enemy().health, 7);
    assert_eq!(
        log,
        vec![
            Lifecycle::Exited(GameState::Combat),
            Lifecycle::Resumed(GameState::Overworld),
            Lifecycle::Paused(GameState::Overworld),
            Lifecycle::Entered(GameState::Combat),
        ]
    );
}

#[test]
fn running_leaves_the_fight() {
    let mut game = game_in_combat();
    let report = tick(&mut game, Input { run: true, ..Input::idle(FRAME) });
    assert_eq!(report.hits, 0);
    assert_eq!(game.fades().len(), 1);
    settle(&mut game);
    assert_eq!(game.current(), GameState::Overworld);
    assert!(game.combat().is_none());
}

/// Fights until the fight is won, and returns the hits that were heard.
fn win(game: &mut Game) -> usize {
    let mut hits = 0;
    let mut won = false;
    for _ in 0..200 {
        let report = tick(game, Input { fight: true, ..Input::idle(FRAME) });
        hits += report.hits;
        if report.victory {
            won = true;
            break;
        }
    }
    assert!(won);
    hits
}

#[test]
fn experience_adds_up_over_fights() {
    let mut game = game_in_combat();
    let hits = win(&mut game);
    // four hits of the player, three of the goblin
    assert_eq!(hits, 7);
    assert_eq!(game.combat().map(|c| c.phase()), Some(CombatState::Success));
    let world = game.overworld().expect("the player is there");
    assert_eq!(world.player.xp, 10);
    assert_eq!(world.stats.health, 12);
    settle(&mut game);
    assert_eq!(game.current(), GameState::Overworld);
    assert!(game.combat().is_none());

    // into the next fight
    let mut met = false;
    for _ in 0..40 {
        if tick(&mut game, walk()).encounter {
            met = true;
            break;
        }
    }
    assert!(met);
    settle(&mut game);
    assert_eq!(game.current(), GameState::Combat);
    win(&mut game);
    let world = game.overworld().expect("the player is there");
    assert_eq!(world.player.xp, 20);
    assert_eq!(world.stats.health, 9);
}

#[test]
fn the_last_mode_survives_too_many_pops() {
    let mut game = game_in_combat();
    game.request_transition(None);
    game.request_transition(None);
    game.request_transition(None);
    let mut refused = 0;
    let mut seen = Vec::new();
    while !game.fades().is_empty() {
        let report = tick(&mut game, Input::idle(FRAME));
        refused += report.refused;
        seen.extend(report.lifecycle);
    }
    assert_eq!(refused, 1);
    assert_eq!(
        seen,
        vec![
            Lifecycle::Exited(GameState::Combat),
            Lifecycle::Resumed(GameState::Overworld),
            Lifecycle::Exited(GameState::Overworld),
            Lifecycle::Resumed(GameState::MainMenu),
        ]
    );
    assert_eq!(game.modes().modes(), vec![GameState::MainMenu]);
    assert!(game.menu().visible);
    assert!(game.overworld().is_none());
}

#[test]
fn modes_change_between_ticks() {
    let mut game = game_in_combat();
    game.request_transition(None);
    for _ in 0..5 {
        tick(&mut game, Input::idle(FRAME));
    }
    // the tick in which the fade falls due still runs the fight
    let report = tick(&mut game, Input { fight: true, ..Input::idle(FRAME) });
    assert_eq!(report.hits, 1);
    assert_eq!(
        report.lifecycle,
        vec![Lifecycle::Exited(GameState::Combat), Lifecycle::Resumed(GameState::Overworld)]
    );
    assert_eq!(game.current(), GameState::Overworld);
    // and the next one runs the overworld
    let report = tick(&mut game, Input { fight: true, displaced: true, ..Input::idle(FRAME) });
    assert_eq!(report.hits, 0);
    assert!(report.walking);
}

#[test]
fn a_paused_mode_does_not_tick() {
    let mut game = game_in_combat();
    let before = game.overworld().expect("paused").encounter.timer().elapsed();
    for _ in 0..20 {
        tick(&mut game, walk());
    }
    let world = game.overworld().expect("paused");
    assert_eq!(world.encounter.timer().elapsed(), before);
    assert!(!world.player.just_moved || !world.player.active);
}

#[test]
fn a_tick_that_is_too_long_is_told_apart() {
    let game = game_in_combat();
    assert!(game.accepts(&Input::idle(1_000_000_000_000)));
    assert!(!game.accepts(&Input::idle(u64::MAX)));
}
