//! The hierarchy of session states: the main state, and the game, screen and
//! inventory-category states that exist only beneath a given parent value.
use vstd::prelude::*;
use crate::commands::ViewScreen;

verus! {

#[derive(Clone, Copy, Debug, PartialEq, Eq, Structural, Hash, PartialOrd, Ord)]
pub enum MainState {
    /// Sets up the environment.
    Setup,
    /// The player is playing the game.
    InGame,
    /// Saving and preparing to tear the game down.
    Wrapup,
    /// The game closes upon entering this state.
    Exit,
}

impl Default for MainState {
    fn default() -> (r: Self)
        ensures
            r == MainState::Setup,
    {
        MainState::Setup
    }
}

/// Exists only while the main state is `InGame`.
#[derive(Clone, Copy, Debug, PartialEq, Eq, Structural, Hash, PartialOrd, Ord)]
pub enum GameState {
    /// Waiting for the starting zone to load.
    Startup,
    /// In the over world.
    Adventure,
    /// In a dungeon.
    Dungeon,
    /// In a battle.
    Battle,
    /// Shopping at a market place.
    Shopping,
    /// On a status, inventory or other screen away from the main game.
    StatScreen,
}

impl Default for GameState {
    fn default() -> (r: Self)
        ensures
            r == GameState::Startup,
    {
        GameState::Startup
    }
}

/// Exists only while the game state is `Battle`.
#[derive(Clone, Copy, Debug, PartialEq, Eq, Structural, Hash, PartialOrd, Ord)]
pub enum BattleWith {
    /// The player met and angered a mob.
    Mob,
}

impl Default for BattleWith {
    fn default() -> (r: Self)
        ensures
            r == BattleWith::Mob,
    {
        BattleWith::Mob
    }
}

/// Exists only while the main state is `InGame`.
#[derive(Clone, Copy, Debug, PartialEq, Eq, Structural, Hash, PartialOrd, Ord)]
pub enum MainScreenState {
    Inventory,
    /// The default view, away from any specialised menu.
    MainGame,
    Spells,
    PlayerStats,
    Quests,
    NotificationHistory,
}

impl Default for MainScreenState {
    fn default() -> (r: Self)
        ensures
            r == MainScreenState::MainGame,
    {
        MainScreenState::MainGame
    }
}

/// The inventory category; exists only while the screen is `Inventory`.
#[derive(Clone, Copy, Debug, PartialEq, Eq, Structural, Hash, PartialOrd, Ord)]
pub enum InventoryState {
    All,
    Consumables,
    Equipment,
    Weapons,
    KeyItems,
}

impl Default for InventoryState {
    fn default() -> (r: Self)
        ensures
            r == InventoryState::All,
    {
        InventoryState::All
    }
}

/// The circular order of categories: All, Consumables, Weapons, Equipment, KeyItems.
pub open spec fn category_rank(c: InventoryState) -> int {
    match c {
        InventoryState::All => 0,
        InventoryState::Consumables => 1,
        InventoryState::Weapons => 2,
        InventoryState::Equipment => 3,
        InventoryState::KeyItems => 4,
    }
}

pub open spec fn category_at(k: int) -> InventoryState {
    if k == 0 {
        InventoryState::All
    } else if k == 1 {
        InventoryState::Consumables
    } else if k == 2 {
        InventoryState::Weapons
    } else if k == 3 {
        InventoryState::Equipment
    } else {
        InventoryState::KeyItems
    }
}

impl InventoryState {
    pub open spec fn next_spec(self) -> InventoryState {
        category_at((category_rank(self) + 1) % 5)
    }

    pub open spec fn prev_spec(self) -> InventoryState {
        category_at((category_rank(self) + 4) % 5)
    }

    /// The category after this one, wrapping from the last to the first.
    pub fn next(self) -> (r: InventoryState)
        ensures
            r == self.next_spec(),
    {
        match self {
            InventoryState::All => InventoryState::Consumables,
            InventoryState::Consumables => InventoryState::Weapons,
            InventoryState::Weapons => InventoryState::Equipment,
            InventoryState::Equipment => InventoryState::KeyItems,
            InventoryState::KeyItems => InventoryState::All,
        }
    }

    /// The category before this one, wrapping from the first to the last.
    pub fn prev(self) -> (r: InventoryState)
        ensures
            r == self.prev_spec(),
    {
        match self {
            InventoryState::All => InventoryState::KeyItems,
            InventoryState::Consumables => InventoryState::All,
            InventoryState::Weapons => InventoryState::Consumables,
            InventoryState::Equipment => InventoryState::Weapons,
            InventoryState::KeyItems => InventoryState::Equipment,
        }
    }
}

/// The four state variables of a session. A child exists exactly while its parent
/// holds the value it hangs from.
#[derive(Clone, Copy, Debug, PartialEq, Eq, Structural)]
pub struct ScreenStates {
    pub main: MainState,
    /// Present exactly while `main` is `InGame`.
    pub game: Option<GameState>,
    /// Present exactly while `main` is `InGame`.
    pub screen: Option<MainScreenState>,
    /// Present exactly while `screen` is `Inventory`.
    pub inventory: Option<InventoryState>,
}

/// The screen that a `/view` target shows.
pub open spec fn screen_for(to: ViewScreen) -> MainScreenState {
    match to {
        ViewScreen::Game => MainScreenState::MainGame,
        ViewScreen::Inventory { .. } => MainScreenState::Inventory,
        ViewScreen::Spells => MainScreenState::Spells,
        ViewScreen::Stats => MainScreenState::PlayerStats,
        ViewScreen::Quests => MainScreenState::Quests,
        ViewScreen::Notifications => MainScreenState::NotificationHistory,
    }
}

impl ScreenStates {
    pub open spec fn wf(&self) -> bool {
        &&& (self.game is Some <==> self.main == MainState::InGame)
        &&& (self.screen is Some <==> self.main == MainState::InGame)
        &&& (self.inventory is Some <==> self.screen == Some(MainScreenState::Inventory))
    }

    /// The state of a session that is setting up.
    pub fn new() -> (r: ScreenStates)
        ensures
            r.wf(),
            r.main == MainState::Setup,
    {
        ScreenStates { main: MainState::Setup, game: None, screen: None, inventory: None }
    }

    /// Enters the game: the game and screen states start at their defaults.
    pub fn enter_in_game_state(&mut self)
        requires
            old(self).wf(),
        ensures
            final(self).wf(),
            old(self).main == MainState::InGame ==> *final(self) == *old(self),
            old(self).main != MainState::InGame ==> *final(self) == (ScreenStates {
                main: MainState::InGame,
                game: Some(GameState::Startup),
                screen: Some(MainScreenState::MainGame),
                inventory: None,
            }),
    {
        if self.main != MainState::InGame {
            *self = ScreenStates {
                main: MainState::InGame,
                game: Some(GameState::Startup),
                screen: Some(MainScreenState::MainGame),
                inventory: None,
            };
        }
    }

    /// The exit intent: whatever the state, the session goes on to wrap up.
    pub fn slash_exit(&mut self)
        ensures
            final(self).wf(),
            final(self).main == MainState::Wrapup,
    {
        *self = ScreenStates { main: MainState::Wrapup, game: None, screen: None, inventory: None };
    }

    /// Once wrapped up, the session exits; in any other state nothing changes.
    pub fn enter_exit_state(&mut self)
        requires
            old(self).wf(),
        ensures
            final(self).wf(),
            old(self).main == MainState::Wrapup ==> final(self).main == MainState::Exit,
            old(self).main != MainState::Wrapup ==> *final(self) == *old(self),
    {
        if self.main == MainState::Wrapup {
            self.main = MainState::Exit;
        }
    }

    /// Leaves the start-up state for the adventure once the starting zone is at hand;
    /// returns whether it did, which is when the zone is first shown.
    pub fn send_new_zone(&mut self, zone_ready: bool) -> (r: bool)
        requires
            old(self).wf(),
        ensures
            final(self).wf(),
            r == (zone_ready && old(self).game == Some(GameState::Startup)),
            r ==> *final(self) == (ScreenStates { game: Some(GameState::Adventure), ..*old(self) }),
            !r ==> *final(self) == *old(self),
    {
        if zone_ready && self.game == Some(GameState::Startup) {
            self.game = Some(GameState::Adventure);
            true
        } else {
            false
        }
    }

    /// Shows the screen that `to` names; in the game only. An inventory target with
    /// a category also selects that category; one without keeps the current category,
    /// or starts at the default one when the inventory was not open.
    pub fn change_screens(&mut self, to: ViewScreen)
        requires
            old(self).wf(),
        ensures
            final(self).wf(),
            old(self).main != MainState::InGame ==> *final(self) == *old(self),
            old(self).main == MainState::InGame ==> {
                &&& final(self).main == old(self).main
                &&& final(self).game == old(self).game
                &&& final(self).screen == Some(screen_for(to))
                &&& final(self).inventory == match to {
                    ViewScreen::Inventory { sub_screen: Some(c) } => Some(c),
                    ViewScreen::Inventory { sub_screen: None } => if old(self).inventory is Some {
                        old(self).inventory
                    } else {
                        Some(InventoryState::All)
                    },
                    _ => None,
                }
            },
    {
        if self.main != MainState::InGame {
            return;
        }
        match to {
            ViewScreen::Game => {
                self.screen = Some(MainScreenState::MainGame);
                self.inventory = None;
            },
            ViewScreen::Inventory { sub_screen } => {
                self.screen = Some(MainScreenState::Inventory);
                match sub_screen {
                    Some(c) => {
                        self.inventory = Some(c);
                    },
                    None => {
                        if self.inventory.is_none() {
                            self.inventory = Some(InventoryState::All);
                        }
                    },
                }
            },
            ViewScreen::Spells => {
                self.screen = Some(MainScreenState::Spells);
                self.inventory = None;
            },
            ViewScreen::Stats => {
                self.screen = Some(MainScreenState::PlayerStats);
                self.inventory = None;
            },
            ViewScreen::Quests => {
                self.screen = Some(MainScreenState::Quests);
                self.inventory = None;
            },
            ViewScreen::Notifications => {
                self.screen = Some(MainScreenState::NotificationHistory);
                self.inventory = None;
            },
        }
    }

    /// Closes the inventory and returns to the main game screen.
    pub fn toggle_inventory(&mut self)
        requires
            old(self).wf(),
        ensures
            final(self).wf(),
            old(self).screen == Some(MainScreenState::Inventory) ==> *final(self) == (
            ScreenStates { screen: Some(MainScreenState::MainGame), inventory: None, ..*old(self) }),
            old(self).screen != Some(MainScreenState::Inventory) ==> *final(self) == *old(self),
    {
        if self.screen == Some(MainScreenState::Inventory) {
            self.screen = Some(MainScreenState::MainGame);
            self.inventory = None;
        }
    }
}

/// The categories form one circle: the step back undoes the step forward and the
/// other way round; the last category leads to the first, and the first back to the
/// last.
pub proof fn lemma_category_cycle(c: InventoryState)
    ensures
        c.next_spec().prev_spec() == c,
        c.prev_spec().next_spec() == c,
        InventoryState::KeyItems.next_spec() == InventoryState::All,
        InventoryState::All.prev_spec() == InventoryState::KeyItems,
{
}

} // verus!
