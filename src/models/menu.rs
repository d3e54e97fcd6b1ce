use vstd::prelude::*;

use crate::geometry::ClipRect;

verus! {

/// Width of one screen of the menu sheet.
pub const MENU_TILE_WIDTH: u32 = 480;

/// Height of one screen of the menu sheet.
pub const MENU_TILE_HEIGHT: u32 = 320;

/// Which menu screen is up, where its picture lies on the sheet, and whether it is drawn.
#[derive(Clone, Copy, Debug, PartialEq, Eq, Structural)]
pub enum MenuState {
    StartScreen { source_rect: ClipRect, is_visible: bool },
    Playing { source_rect: ClipRect, is_visible: bool },
    GameOver { source_rect: ClipRect, is_visible: bool },
}

impl MenuState {
    pub open spec fn start_screen() -> MenuState {
        MenuState::StartScreen {
            source_rect: ClipRect { x: 12, y: 32, w: MENU_TILE_WIDTH, h: MENU_TILE_HEIGHT },
            is_visible: true,
        }
    }

    /// While playing no menu is drawn.
    pub open spec fn playing() -> MenuState {
        MenuState::Playing {
            source_rect: ClipRect { x: 12, y: 32, w: MENU_TILE_WIDTH, h: MENU_TILE_HEIGHT },
            is_visible: false,
        }
    }

    pub open spec fn game_over() -> MenuState {
        MenuState::GameOver {
            source_rect: ClipRect { x: 12, y: 505, w: MENU_TILE_WIDTH, h: MENU_TILE_HEIGHT },
            is_visible: true,
        }
    }

    pub open spec fn source(self) -> ClipRect {
        match self {
            MenuState::StartScreen { source_rect, .. } => source_rect,
            MenuState::Playing { source_rect, .. } => source_rect,
            MenuState::GameOver { source_rect, .. } => source_rect,
        }
    }

    pub open spec fn visible(self) -> bool {
        match self {
            MenuState::StartScreen { is_visible, .. } => is_visible,
            MenuState::Playing { is_visible, .. } => is_visible,
            MenuState::GameOver { is_visible, .. } => is_visible,
        }
    }

    pub fn new_start() -> (r: MenuState)
        ensures
            r == MenuState::start_screen(),
    {
        MenuState::StartScreen {
            source_rect: ClipRect::new(12, 32, MENU_TILE_WIDTH, MENU_TILE_HEIGHT),
            is_visible: true,
        }
    }

    pub fn new_playing() -> (r: MenuState)
        ensures
            r == MenuState::playing(),
    {
        MenuState::Playing {
            source_rect: ClipRect::new(12, 32, MENU_TILE_WIDTH, MENU_TILE_HEIGHT),
            is_visible: false,
        }
    }

    pub fn new_game_over() -> (r: MenuState)
        ensures
            r == MenuState::game_over(),
    {
        MenuState::GameOver {
            source_rect: ClipRect::new(12, 505, MENU_TILE_WIDTH, MENU_TILE_HEIGHT),
            is_visible: true,
        }
    }

    /// A short name of the screen.
    pub fn as_str(&self) -> (r: &'static str)
        ensures
            self is StartScreen ==> r@ == "start"@,
            self is Playing ==> r@ == "playing"@,
            self is GameOver ==> r@ == "game_over"@,
    {
        match *self {
            MenuState::StartScreen { .. } => "start",
            MenuState::Playing { .. } => "playing",
            MenuState::GameOver { .. } => "game_over",
        }
    }
}

/// The menu screens as a state machine: start, playing, game over, and back to start.
pub struct Menu {
    pub state: MenuState,
}

impl Menu {
    pub fn new() -> (r: Menu)
        ensures
            r.state == MenuState::start_screen(),
    {
        Menu { state: MenuState::new_start() }
    }

    pub fn state(&self) -> (r: MenuState)
        ensures
            r == self.state,
    {
        self.state
    }

    /// From game over back to the start screen.
    pub fn to_start_screen(&mut self)
        requires
            old(self).state is GameOver,
        ensures
            final(self).state == MenuState::start_screen(),
    {
        self.state = MenuState::new_start();
    }

    /// From the start screen into play.
    pub fn to_playing(&mut self)
        requires
            old(self).state is StartScreen,
        ensures
            final(self).state == MenuState::playing(),
    {
        self.state = MenuState::new_playing();
    }

    /// From play to the game-over screen.
    pub fn to_game_over(&mut self)
        requires
            old(self).state is Playing,
        ensures
            final(self).state == MenuState::game_over(),
    {
        self.state = MenuState::new_game_over();
    }

    pub fn get_source_rect(&self) -> (r: ClipRect)
        ensures
            r == self.state.source(),
    {
        match self.state {
            MenuState::StartScreen { source_rect, .. } => source_rect,
            MenuState::Playing { source_rect, .. } => source_rect,
            MenuState::GameOver { source_rect, .. } => source_rect,
        }
    }

    pub fn is_visible(&self) -> (r: bool)
        ensures
            r == self.state.visible(),
    {
        match self.state {
            MenuState::StartScreen { is_visible, .. } => is_visible,
            MenuState::Playing { is_visible, .. } => is_visible,
            MenuState::GameOver { is_visible, .. } => is_visible,
        }
    }
}

} // verus!
