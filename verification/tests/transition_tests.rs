use bevpg::mode::GameState;
use bevpg::transition::{create_fadeout, fadeout, FadeStep, ModeChange, ScreenFade};

#[test]
fn a_fresh_fade_has_sent_nothing() {
    let fade = create_fadeout(Some(GameState::Combat));
    assert!(!fade.sent());
    assert_eq!(fade.next_state(), Some(GameState::Combat));
    assert_eq!(fade.timer().elapsed(), 0);
    assert_eq!(fade.timer().duration(), 1_000_000_000);
}

#[test]
fn a_fade_changes_the_mode_past_its_midpoint() {
    let mut fade = create_fadeout(Some(GameState::Overworld));
    assert_eq!(fade.tick(500_000_000), FadeStep { change: None, finished: false });
    assert!(!fade.sent());
    assert_eq!(
        fade.tick(1),
        FadeStep { change: Some(ModeChange::Push(GameState::Overworld)), finished: false }
    );
    assert!(fade.sent());
    assert_eq!(fade.tick(400_000_000), FadeStep { change: None, finished: false });
    assert_eq!(fade.tick(99_999_999), FadeStep { change: None, finished: true });
    assert_eq!(fade.tick(5), FadeStep { change: None, finished: false });
}

#[test]
fn a_fade_without_a_mode_pops() {
    let mut fade = create_fadeout(None);
    assert_eq!(
        fade.tick(2_000_000_000),
        FadeStep { change: Some(ModeChange::Pop), finished: true }
    );
}

/// Runs a fade in steps of `step` nanoseconds until it ends, and returns the
/// number of the tick that changed the mode and how many ticks did so.
fn run(step: u64) -> (u64, u64) {
    let mut fade = create_fadeout(None);
    let mut ticks = 0;
    let mut fired_at = 0;
    let mut fired = 0;
    loop {
        ticks += 1;
        let step = fade.tick(step);
        if step.change.is_some() {
            fired += 1;
            fired_at = ticks;
        }
        if step.finished {
            break;
        }
    }
    // a finished fade that is ticked on stays silent.
    for _ in 0..10 {
        assert_eq!(fade.tick(step), FadeStep { change: None, finished: false });
    }
    (fired_at, fired)
}

#[test]
fn a_fade_fires_once_at_any_frame_rate() {
    // at 1 ms a tick, the 501st tick is the first past the midpoint
    assert_eq!(run(1_000_000), (501, 1));
    // at 100 ms a tick, the 6th
    assert_eq!(run(100_000_000), (6, 1));
    // at 16.7 ms a tick, the 30th
    assert_eq!(run(16_700_000), (30, 1));
    assert_eq!(run(3_000_000_000), (1, 1));
}

#[test]
fn fadeout_ticks_all_fades_and_drops_the_ended() {
    let mut fades: Vec<ScreenFade> = Vec::new();
    fades.push(create_fadeout(Some(GameState::Combat)));
    assert_eq!(fadeout(&mut fades, 450_000_000), vec![]);
    fades.push(create_fadeout(None));
    assert_eq!(
        fadeout(&mut fades, 100_000_000),
        vec![ModeChange::Push(GameState::Combat)]
    );
    assert_eq!(fades.len(), 2);
    assert_eq!(fadeout(&mut fades, 450_000_000), vec![ModeChange::Pop]);
    assert_eq!(fades.len(), 1);
    assert_eq!(fades[0].next_state(), None);
    assert_eq!(fades[0].timer().elapsed(), 550_000_000);
    assert_eq!(fadeout(&mut fades, 450_000_000), vec![]);
    assert!(fades.is_empty());
    assert_eq!(fadeout(&mut fades, 450_000_000), vec![]);
}

#[test]
fn fades_that_fall_due_together_keep_their_order() {
    let mut fades = vec![
        create_fadeout(None),
        create_fadeout(Some(GameState::MainMenu)),
        create_fadeout(None),
    ];
    assert_eq!(
        fadeout(&mut fades, 600_000_000),
        vec![ModeChange::Pop, ModeChange::Push(GameState::MainMenu), ModeChange::Pop]
    );
    assert_eq!(fades.len(), 3);
}
