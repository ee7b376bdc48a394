use bevpg::combat::CombatStats;
use bevpg::menu::{on_start_click, MainMenu};
use bevpg::mode::GameState;
use bevpg::npc::{highlight_npc, npc_dialog, Npc};
use bevpg::overworld::{Overworld, OverworldInput, OverworldReport};
use bevpg::player::Player;
use bevpg::tilemap::{char_to_tile_index, char_to_tile_kind, create_simple_map, Tile, TileKind};
use bevpg::ui::{button_interaction, Interaction};

#[test]
fn buttons_sink_and_rise() {
    assert_eq!(button_interaction(Interaction::Clicked, false), 3);
    assert_eq!(button_interaction(Interaction::Hovered, false), -3);
    assert_eq!(button_interaction(Interaction::Idle, false), 0);
    assert_eq!(button_interaction(Interaction::Clicked, true), 0);
    assert_eq!(button_interaction(Interaction::Hovered, true), 0);
    assert_eq!(button_interaction(Interaction::Idle, true), 0);
}

#[test]
fn the_start_button_works_once() {
    let mut menu = MainMenu::new();
    assert_eq!(menu, MainMenu { visible: true, start_disabled: false });
    assert!(on_start_click(&mut menu, false).is_none());
    assert!(!menu.start_disabled);
    let fade = on_start_click(&mut menu, true).expect("the first click starts the game");
    assert_eq!(fade.next_state(), Some(GameState::Overworld));
    assert!(menu.start_disabled);
    assert!(on_start_click(&mut menu, true).is_none());
    assert!(menu.start_disabled);
}

#[test]
fn map_characters_have_their_tiles() {
    assert_eq!(char_to_tile_index('#'), 169);
    assert_eq!(char_to_tile_index('~'), 5);
    assert_eq!(char_to_tile_index('@'), 80);
    assert_eq!(char_to_tile_index('.'), 0);
    assert_eq!(char_to_tile_index(' '), 0);
    assert_eq!(char_to_tile_kind('#'), TileKind::Wall);
    assert_eq!(char_to_tile_kind('~'), TileKind::Encounter);
    assert_eq!(char_to_tile_kind('@'), TileKind::Person(Npc::Healer));
    assert_eq!(char_to_tile_kind('x'), TileKind::Floor);
}

#[test]
fn a_map_has_one_tile_for_each_character() {
    let lines: Vec<Vec<char>> = vec!["#~".chars().collect(), Vec::new(), ".@#".chars().collect()];
    assert_eq!(
        create_simple_map(&lines),
        vec![
            Tile { x: 0, y: 0, index: 169, kind: TileKind::Wall },
            Tile { x: 1, y: 0, index: 5, kind: TileKind::Encounter },
            Tile { x: 0, y: 2, index: 0, kind: TileKind::Floor },
            Tile { x: 1, y: 2, index: 80, kind: TileKind::Person(Npc::Healer) },
            Tile { x: 2, y: 2, index: 169, kind: TileKind::Wall },
        ]
    );
    assert_eq!(create_simple_map(&Vec::new()), vec![]);
}

#[test]
fn the_bubble_goes_to_the_first_in_reach() {
    assert_eq!(highlight_npc(&vec![false, true, true]), Some(1));
    assert_eq!(highlight_npc(&vec![true]), Some(0));
    assert_eq!(highlight_npc(&vec![false, false]), None);
    assert_eq!(highlight_npc(&Vec::new()), None);
}

#[test]
fn the_healer_heals_and_holds_the_player() {
    let mut player = Player { active: true, just_moved: false, xp: 5 };
    let mut stats = CombatStats { max_health: 15, health: 4, attack: 3, defence: 1 };
    let mut open = false;
    // nobody in reach
    assert!(!npc_dialog(&mut player, &mut stats, &mut open, true, true, false));
    assert_eq!(stats.health, 4);
    // in reach, but no key
    assert!(!npc_dialog(&mut player, &mut stats, &mut open, true, false, true));
    assert_eq!(stats.health, 4);
    assert!(npc_dialog(&mut player, &mut stats, &mut open, true, true, true));
    assert_eq!(stats.health, 15);
    assert!(open);
    assert!(!player.active);
    // the dialog stays until it is dismissed
    assert!(!npc_dialog(&mut player, &mut stats, &mut open, false, false, true));
    assert!(open);
    assert!(!player.active);
    assert!(!npc_dialog(&mut player, &mut stats, &mut open, true, true, true));
    assert!(!open);
    assert!(player.active);
    assert_eq!(player.xp, 5);
}

fn stand(delta: u64) -> OverworldInput {
    OverworldInput {
        delta,
        displaced: false,
        over_encounter: false,
        dismiss: false,
        interact: false,
        npc_in_reach: false,
    }
}

#[test]
fn the_overworld_starts_with_the_player_in_it() {
    let world = Overworld::new();
    assert!(world.visible);
    assert!(!world.dialog_open);
    assert_eq!(world.player, Player { active: true, just_moved: false, xp: 0 });
    assert_eq!(world.stats.health, 15);
    assert_eq!(world.encounter.timer().duration(), 1_000_000_000);
}

#[test]
fn walking_through_the_grass_leads_to_a_fight() {
    let mut world = Overworld::new();
    let walk = OverworldInput { displaced: true, over_encounter: true, ..stand(400_000_000) };
    let (report, fade) = world.update(walk);
    assert_eq!(report, OverworldReport { walking: true, encounter: false, healed: false });
    assert!(fade.is_none());
    let (report, fade) = world.update(stand(10_000_000_000));
    assert_eq!(report, OverworldReport { walking: false, encounter: false, healed: false });
    assert!(fade.is_none());
    world.update(walk);
    let (report, fade) = world.update(walk);
    assert_eq!(report, OverworldReport { walking: true, encounter: true, healed: false });
    assert_eq!(fade.map(|f| f.next_state()), Some(Some(GameState::Combat)));
    assert!(!world.player.active);
    assert_eq!(world.encounter.timer().elapsed(), 200_000_000);
    // without the controls the player stays put, and the timer rests
    let (report, fade) = world.update(walk);
    assert_eq!(report, OverworldReport { walking: false, encounter: false, healed: false });
    assert!(fade.is_none());
    assert_eq!(world.encounter.timer().elapsed(), 200_000_000);
}

#[test]
fn pausing_hides_and_resuming_shows_the_overworld() {
    let mut world = Overworld::new();
    world.player.active = false;
    world.pause();
    assert!(!world.visible);
    assert!(!world.player.active);
    world.resume();
    assert!(world.visible);
    assert!(world.player.active);
}
