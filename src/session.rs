//! The command-handling step: one submitted line is parsed, dispatched and
//! applied to the session before the next is read.
use vstd::prelude::*;
use crate::commands::{
    Command, CommandView, Direction, DirectionView, GameCmd, GameCmdView, SlashCmd, ViewScreen,
    parse_command, parse_line, ParseError,
};
use crate::navigation::{
    NavError, handle_player_look, handle_player_movement, handle_player_take, look_spec,
    move_spec, take_spec, entries_view,
};
use crate::state::{MainState, ScreenStates, screen_for};
use crate::zones::{InventoryEntry, Location, Zones};

verus! {

/// What an in-world command asks of the navigation engine.
#[derive(Debug)]
pub enum GameEvent {
    PlayerMovement(Direction),
    PlayerLook,
    PlayerTake,
    ShowInventory,
}

/// What a slash command asks of the session.
#[derive(Clone, Copy, Debug, PartialEq, Eq, Structural)]
pub enum SlashEvent {
    ExitGame,
    ChangeScreen { to_screen: ViewScreen },
}

/// The navigation request of an in-world command.
pub fn handle_game_cmd(cmd: GameCmd) -> (r: GameEvent)
    ensures
        match cmd@ {
            GameCmdView::Go(d) => r is PlayerMovement && r->PlayerMovement_0@ == d,
            GameCmdView::Look => r is PlayerLook,
            GameCmdView::Take => r is PlayerTake,
            GameCmdView::Inventory => r is ShowInventory,
        },
{
    match cmd {
        GameCmd::Go { direction } => GameEvent::PlayerMovement(direction),
        GameCmd::Look => GameEvent::PlayerLook,
        GameCmd::Take => GameEvent::PlayerTake,
        GameCmd::Inventory => GameEvent::ShowInventory,
    }
}

/// The session event of a slash command; help and saving ask nothing of the session.
pub fn slash_cmd(cmd: SlashCmd) -> (r: Option<SlashEvent>)
    ensures
        r == match cmd {
            SlashCmd::Exit => Some(SlashEvent::ExitGame),
            SlashCmd::View { screen } => Some(SlashEvent::ChangeScreen { to_screen: screen }),
            _ => None,
        },
{
    match cmd {
        SlashCmd::Exit => Some(SlashEvent::ExitGame),
        SlashCmd::View { screen } => Some(SlashEvent::ChangeScreen { to_screen: screen }),
        SlashCmd::Help { .. } => None,
        SlashCmd::Save { .. } => None,
    }
}

/// What the display shows after a line was handled.
#[derive(Debug)]
pub enum Response {
    /// The session is not in the game; the line was not read.
    Inactive,
    /// The line matched no command.
    BadCommand(ParseError),
    /// The player entered a zone; its description.
    Moved { description: String },
    /// Moving, looking or taking did not happen.
    Refused(NavError),
    /// The closer description of the zone.
    Looked(String),
    /// The identifiers of the items taken, each now an inventory entry.
    Took(Vec<String>),
    /// The screen state changed.
    ScreenChanged,
    /// The session is wrapping up.
    Exiting,
    /// A recognised command that changes nothing here.
    NoEffect,
}

pub struct Session {
    pub zones: Zones,
    pub location: Location,
    pub states: ScreenStates,
    pub inventory: Vec<InventoryEntry>,
}

impl Session {
    /// Handles one line of player input.
    pub fn process_line(&mut self, line: &str) -> (r: Response)
        requires
            old(self).states.wf(),
        ensures
            final(self).states.wf(),
            final(self).zones@ == old(self).zones@,
            old(self).states.main != MainState::InGame ==> r is Inactive && final(self).states
                == old(self).states && final(self).location == old(self).location
                && final(self).inventory@ == old(self).inventory@,
            old(self).states.main == MainState::InGame ==> match parse_line(line@) {
                Err(e) => r == Response::BadCommand(e) && final(self).states == old(self).states
                    && final(self).location == old(self).location && final(self).inventory@
                    == old(self).inventory@,
                Ok(CommandView::Game(GameCmdView::Go(d))) => {
                    &&& final(self).states == old(self).states
                    &&& final(self).inventory@ == old(self).inventory@
                    &&& match move_spec(old(self).zones@, old(self).location.0@, d) {
                        Ok(t) => final(self).location.0@ == t && r is Moved
                            && r->description@ == old(self).zones@[t].description@,
                        Err(e) => final(self).location == old(self).location && r
                            == Response::Refused(e),
                    }
                },
                Ok(CommandView::Game(GameCmdView::Look)) => {
                    &&& final(self).states == old(self).states
                    &&& final(self).location == old(self).location
                    &&& final(self).inventory@ == old(self).inventory@
                    &&& match look_spec(old(self).zones@, old(self).location.0@) {
                        Ok(t) => r is Looked && r->Looked_0@ == t,
                        Err(e) => r == Response::Refused(e),
                    }
                },
                Ok(CommandView::Game(GameCmdView::Take)) => {
                    &&& final(self).states == old(self).states
                    &&& final(self).location == old(self).location
                    &&& match take_spec(old(self).zones@, old(self).location.0@) {
                        Ok(items) => r is Took && r->Took_0@.map_values(|s: String| s@) == items
                            && entries_view(final(self).inventory@) == entries_view(
                            old(self).inventory@,
                        ) + items,
                        Err(e) => r == Response::Refused(e) && final(self).inventory@ == old(
                            self,
                        ).inventory@,
                    }
                },
                Ok(CommandView::Game(GameCmdView::Inventory)) => {
                    &&& r is ScreenChanged
                    &&& final(self).location == old(self).location
                    &&& final(self).inventory@ == old(self).inventory@
                    &&& final(self).states.screen == Some(
                        screen_for(ViewScreen::Inventory { sub_screen: None }),
                    )
                },
                Ok(CommandView::Slash(SlashCmd::Exit)) => {
                    &&& r is Exiting
                    &&& final(self).states.main == MainState::Wrapup
                    &&& final(self).location == old(self).location
                    &&& final(self).inventory@ == old(self).inventory@
                },
                Ok(CommandView::Slash(SlashCmd::View { screen })) => {
                    &&& r is ScreenChanged
                    &&& final(self).states.main == MainState::InGame
                    &&& final(self).states.screen == Some(screen_for(screen))
                    &&& final(self).location == old(self).location
                    &&& final(self).inventory@ == old(self).inventory@
                },
                Ok(CommandView::Slash(_)) => {
                    &&& r is NoEffect
                    &&& final(self).states == old(self).states
                    &&& final(self).location == old(self).location
                    &&& final(self).inventory@ == old(self).inventory@
                },
            },
    {
        if self.states.main != MainState::InGame {
            return Response::Inactive;
        }
        let cmd = match parse_command(line) {
            Ok(c) => c,
            Err(e) => return Response::BadCommand(e),
        };
        match cmd {
            Command::Game(g) => match handle_game_cmd(g) {
                GameEvent::PlayerMovement(d) => {
                    match handle_player_movement(&self.zones, &mut self.location, &d) {
                        Ok(()) => {
                            let description = match self.zones.get(self.location.0.as_str()) {
                                Some(z) => z.description.clone(),
                                None => String::new(),
                            };
                            Response::Moved { description }
                        },
                        Err(e) => Response::Refused(e),
                    }
                },
                GameEvent::PlayerLook => match handle_player_look(&self.zones, &self.location) {
                    Ok(t) => Response::Looked(t),
                    Err(e) => Response::Refused(e),
                },
                GameEvent::PlayerTake => match handle_player_take(&self.zones, &self.location) {
                    Ok(es) => {
                        let mut taken: Vec<String> = Vec::new();
                        let mut k: usize = 0;
                        while k < es.len()
                            invariant
                                k <= es@.len(),
                                taken@.map_values(|s: String| s@) =~= entries_view(es@).take(
                                    k as int,
                                ),
                            decreases es@.len() - k,
                        {
                            taken.push(es[k].asset_path.clone());
                            assert(entries_view(es@).take(k + 1) =~= entries_view(es@).take(
                                k as int,
                            ).push(es@[k as int].asset_path@));
                            k = k + 1;
                        }
                        assert(entries_view(es@).take(k as int) =~= entries_view(es@));
                        let ghost before = self.inventory@;
                        let ghost es_view = es@;
                        let mut es = es;
                        self.inventory.append(&mut es);
                        assert(entries_view(self.inventory@) =~= entries_view(before)
                            + entries_view(es_view));
                        Response::Took(taken)
                    },
                    Err(e) => Response::Refused(e),
                },
                GameEvent::ShowInventory => {
                    self.states.change_screens(ViewScreen::Inventory { sub_screen: None });
                    Response::ScreenChanged
                },
            },
            Command::Slash(s) => match slash_cmd(s) {
                Some(SlashEvent::ExitGame) => {
                    self.states.slash_exit();
                    Response::Exiting
                },
                Some(SlashEvent::ChangeScreen { to_screen }) => {
                    self.states.change_screens(to_screen);
                    Response::ScreenChanged
                },
                None => Response::NoEffect,
            },
        }
    }
}

} // verus!
