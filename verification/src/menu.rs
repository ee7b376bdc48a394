//! The main menu.

use crate::mode::GameState;
use crate::transition::{create_fadeout, ScreenFade, ScreenFadeView};
use vstd::prelude::*;

verus! {

/// What the main menu shows.
#[derive(Debug, Clone, Copy, PartialEq, Eq, Structural)]
pub struct MainMenu {
    /// Whether the menu is on the screen. It is hidden while it is paused.
    pub visible: bool,
    /// Whether the start button has been used up.
    pub start_disabled: bool,
}

impl MainMenu {
    /// The menu as the game opens with it.
    pub fn new() -> (menu: MainMenu)
        ensures
            menu == (MainMenu { visible: true, start_disabled: false }),
    {
        MainMenu { visible: true, start_disabled: false }
    }
}

/// A click on the start button disables the button and starts the fade into
/// the overworld; a disabled button does nothing.
pub fn on_start_click(menu: &mut MainMenu, clicked: bool) -> (fade: Option<ScreenFade>)
    ensures
        fade.is_some() == (clicked && !old(menu).start_disabled),
        fade matches Some(f) ==> f@ == ScreenFadeView::fresh(Some(GameState::Overworld))
            && f@.wf(),
        *final(menu) == (MainMenu {
            start_disabled: old(menu).start_disabled || clicked,
            ..*old(menu)
        }),
{
    if clicked && !menu.start_disabled {
        menu.start_disabled = true;
        Some(create_fadeout(Some(GameState::Overworld)))
    } else {
        None
    }
}

} // verus!
