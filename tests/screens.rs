use xork::commands::{Direction, ViewScreen};
use xork::history::{CmdHistory, HistoryKey, HISTORY_LIMIT};
use xork::inventory::{navigate_inventory, InvIndex, InvNavDir, NavIntent};
use xork::session::{handle_game_cmd, slash_cmd, GameEvent, Response, Session, SlashEvent};
use xork::state::{GameState, InventoryState, MainScreenState, MainState, ScreenStates};
use xork::zones::{Connections, Location, ZoneAsset, Zones};
use xork::commands::{GameCmd, GameCmdName, SlashCmd};

fn in_game() -> ScreenStates {
    let mut s = ScreenStates::new();
    s.enter_in_game_state();
    s
}

#[test]
fn entering_the_game_sets_defaults() {
    let s = in_game();
    assert_eq!(s.main, MainState::InGame);
    assert_eq!(s.game, Some(GameState::Startup));
    assert_eq!(s.screen, Some(MainScreenState::MainGame));
    assert_eq!(s.inventory, None);
    assert_eq!(MainState::default(), MainState::Setup);
    assert_eq!(InventoryState::default(), InventoryState::All);
}

#[test]
fn start_up_waits_for_the_zone() {
    let mut s = in_game();
    assert!(!s.send_new_zone(false));
    assert_eq!(s.game, Some(GameState::Startup));
    assert!(s.send_new_zone(true));
    assert_eq!(s.game, Some(GameState::Adventure));
    assert!(!s.send_new_zone(true));
}

#[test]
fn exit_always_wraps_up() {
    let mut setup = ScreenStates::new();
    setup.slash_exit();
    assert_eq!(setup.main, MainState::Wrapup);

    let mut playing = in_game();
    playing.change_screens(ViewScreen::Inventory { sub_screen: None });
    playing.slash_exit();
    assert_eq!(playing.main, MainState::Wrapup);
    assert_eq!(playing.screen, None);
    assert_eq!(playing.inventory, None);

    let mut done = ScreenStates::new();
    done.slash_exit();
    done.enter_exit_state();
    assert_eq!(done.main, MainState::Exit);
    done.slash_exit();
    assert_eq!(done.main, MainState::Wrapup);
}

#[test]
fn exit_state_follows_wrapup_only() {
    let mut s = in_game();
    s.enter_exit_state();
    assert_eq!(s.main, MainState::InGame);
}

#[test]
fn categories_wrap_both_ways() {
    assert_eq!(InventoryState::KeyItems.next(), InventoryState::All);
    assert_eq!(InventoryState::All.prev(), InventoryState::KeyItems);
    assert_eq!(InventoryState::All.next(), InventoryState::Consumables);
    assert_eq!(InventoryState::Consumables.next(), InventoryState::Weapons);
    assert_eq!(InventoryState::Weapons.next(), InventoryState::Equipment);
    assert_eq!(InventoryState::Equipment.next(), InventoryState::KeyItems);
    let mut c = InventoryState::Weapons;
    for _ in 0..5 {
        c = c.next();
    }
    assert_eq!(c, InventoryState::Weapons);
}

#[test]
fn category_navigation_needs_the_inventory_screen() {
    let mut s = in_game();
    let mut idx = InvIndex(3, 1);
    let before = s;
    navigate_inventory(&mut s, &mut idx, NavIntent::NavigateNextCategory, 10);
    navigate_inventory(&mut s, &mut idx, NavIntent::NavigatePrevCategory, 10);
    navigate_inventory(&mut s, &mut idx, NavIntent::NavigateDown, 10);
    assert_eq!(s, before);
    assert_eq!(idx, InvIndex(3, 1));

    s.change_screens(ViewScreen::Inventory {
        sub_screen: Some(InventoryState::KeyItems),
    });
    navigate_inventory(&mut s, &mut idx, NavIntent::NavigateNextCategory, 10);
    assert_eq!(s.inventory, Some(InventoryState::All));
    assert_eq!(idx, InvIndex(0, 0));
    navigate_inventory(&mut s, &mut idx, NavIntent::NavigatePrevCategory, 10);
    assert_eq!(s.inventory, Some(InventoryState::KeyItems));
}

#[test]
fn rows_scroll_with_the_selection() {
    let mut idx = InvIndex(0, 0);
    idx.navigate(InvNavDir::Up, 30);
    assert_eq!(idx, InvIndex(0, 0));
    for _ in 0..16 {
        idx.navigate(InvNavDir::Down, 30);
    }
    assert_eq!(idx, InvIndex(16, 0));
    idx.navigate(InvNavDir::Down, 30);
    assert_eq!(idx, InvIndex(17, 1));
    idx.navigate(InvNavDir::Up, 30);
    assert_eq!(idx, InvIndex(16, 1));
    let mut end = InvIndex(2, 0);
    end.navigate(InvNavDir::Down, 3);
    assert_eq!(end, InvIndex(2, 0));
    let mut empty = InvIndex(0, 0);
    empty.navigate(InvNavDir::Down, 0);
    assert_eq!(empty, InvIndex(0, 0));
    let mut top = InvIndex(1, 1);
    top.navigate(InvNavDir::Up, 5);
    assert_eq!(top, InvIndex(0, 0));
}

#[test]
fn row_steps_move_the_all_items_list() {
    let mut s = in_game();
    s.change_screens(ViewScreen::Inventory { sub_screen: None });
    assert_eq!(s.inventory, Some(InventoryState::All));
    let mut idx = InvIndex(0, 0);
    navigate_inventory(&mut s, &mut idx, NavIntent::NavigateDown, 4);
    assert_eq!(idx, InvIndex(1, 0));
    s.change_screens(ViewScreen::Inventory {
        sub_screen: Some(InventoryState::Weapons),
    });
    navigate_inventory(&mut s, &mut idx, NavIntent::NavigateDown, 4);
    assert_eq!(idx, InvIndex(1, 0));
}

#[test]
fn screens_change_only_in_game() {
    let mut s = ScreenStates::new();
    s.change_screens(ViewScreen::Stats);
    assert_eq!(s.screen, None);

    let mut s = in_game();
    s.change_screens(ViewScreen::Stats);
    assert_eq!(s.screen, Some(MainScreenState::PlayerStats));
    s.change_screens(ViewScreen::Inventory {
        sub_screen: Some(InventoryState::Weapons),
    });
    assert_eq!(s.inventory, Some(InventoryState::Weapons));
    s.change_screens(ViewScreen::Inventory { sub_screen: None });
    assert_eq!(s.inventory, Some(InventoryState::Weapons));
    s.toggle_inventory();
    assert_eq!(s.screen, Some(MainScreenState::MainGame));
    assert_eq!(s.inventory, None);
    s.change_screens(ViewScreen::Notifications);
    assert_eq!(s.screen, Some(MainScreenState::NotificationHistory));
    s.toggle_inventory();
    assert_eq!(s.screen, Some(MainScreenState::NotificationHistory));
}

#[test]
fn dispatch_of_commands() {
    assert!(matches!(
        handle_game_cmd(GameCmd::Go {
            direction: Direction::Up
        }),
        GameEvent::PlayerMovement(Direction::Up)
    ));
    assert!(matches!(handle_game_cmd(GameCmd::Look), GameEvent::PlayerLook));
    assert!(matches!(handle_game_cmd(GameCmd::Take), GameEvent::PlayerTake));
    assert_eq!(slash_cmd(SlashCmd::Exit), Some(SlashEvent::ExitGame));
    assert_eq!(
        slash_cmd(SlashCmd::View {
            screen: ViewScreen::Quests
        }),
        Some(SlashEvent::ChangeScreen {
            to_screen: ViewScreen::Quests
        })
    );
    assert_eq!(slash_cmd(SlashCmd::Save { save_slot: 1 }), None);
    assert_eq!(
        slash_cmd(SlashCmd::Help {
            with: GameCmdName::Take
        }),
        None
    );
}

#[test]
fn history_walk() {
    let mut h = CmdHistory::new();
    let mut input = "typing".to_string();
    h.navigate(HistoryKey::Up, &mut input);
    assert_eq!(input, "typing");
    h.push("one".to_string());
    h.push("two".to_string());
    assert_eq!(h.history.len(), 2);
    h.navigate(HistoryKey::Up, &mut input);
    assert_eq!(input, "two");
    h.navigate(HistoryKey::Up, &mut input);
    assert_eq!(input, "one");
    h.navigate(HistoryKey::Up, &mut input);
    assert_eq!(input, "two");
    h.navigate(HistoryKey::Up, &mut input);
    assert_eq!(input, "one");
    assert_eq!(h.get_selected(), "one");
    h.navigate(HistoryKey::Down, &mut input);
    assert_eq!(input, "two");
    h.navigate(HistoryKey::Down, &mut input);
    assert_eq!(input, "typing");
    assert_eq!(h.line_storage, None);
    h.navigate(HistoryKey::Down, &mut input);
    assert_eq!(input, "typing");
}

#[test]
fn history_drops_the_oldest_at_the_limit() {
    let mut h = CmdHistory::new();
    for i in 0..HISTORY_LIMIT + 5 {
        h.push(format!("{i}"));
    }
    assert_eq!(h.history.len(), HISTORY_LIMIT - 1);
    assert_eq!(h.history[0], format!("{}", HISTORY_LIMIT + 4));
}

fn session() -> Session {
    let mut zones = Zones::new();
    let mut a = Connections::new();
    a.insert(Direction::North, "b".to_string());
    a.insert(Direction::East, "void".to_string());
    zones.insert(
        "a".to_string(),
        ZoneAsset {
            name: "A".to_string(),
            description: "zone a".to_string(),
            examine: None,
            connections: a,
            items: vec!["sword".to_string(), "shield".to_string()],
        },
    );
    let mut b = Connections::new();
    b.insert(Direction::South, "a".to_string());
    zones.insert(
        "b".to_string(),
        ZoneAsset {
            name: "B".to_string(),
            description: "zone b".to_string(),
            examine: Some("text".to_string()),
            connections: b,
            items: vec![],
        },
    );
    Session {
        zones,
        location: Location("a".to_string()),
        states: ScreenStates::new(),
        inventory: Vec::new(),
    }
}

#[test]
fn session_ignores_lines_before_the_game() {
    let mut s = session();
    assert!(matches!(s.process_line("n"), Response::Inactive));
    assert_eq!(s.location.0, "a");
}

#[test]
fn session_runs_commands() {
    let mut s = session();
    s.states.enter_in_game_state();
    assert!(matches!(
        s.process_line("dance"),
        Response::BadCommand(xork::commands::ParseError::UnrecognizedCommand)
    ));
    match s.process_line("take") {
        Response::Took(ids) => assert_eq!(ids, vec!["sword", "shield"]),
        other => panic!("{other:?}"),
    }
    s.process_line("yoink");
    assert_eq!(s.inventory.len(), 4);
    assert!(matches!(
        s.process_line("go east"),
        Response::Refused(xork::navigation::NavError::DanglingConnection)
    ));
    assert_eq!(s.location.0, "a");
    match s.process_line("look") {
        Response::Looked(t) => {
            assert_eq!(t, "You looked around and saw nothing else of interest...")
        }
        other => panic!("{other:?}"),
    }
    match s.process_line("N") {
        Response::Moved { description } => assert_eq!(description, "zone b"),
        other => panic!("{other:?}"),
    }
    assert_eq!(s.location.0, "b");
    match s.process_line("examine") {
        Response::Looked(t) => assert_eq!(t, "text"),
        other => panic!("{other:?}"),
    }
    assert!(matches!(
        s.process_line("n"),
        Response::Refused(xork::navigation::NavError::NoPathThatWay)
    ));
    assert!(matches!(s.process_line("inv"), Response::ScreenChanged));
    assert_eq!(s.states.screen, Some(MainScreenState::Inventory));
    assert!(matches!(s.process_line("/view game"), Response::ScreenChanged));
    assert_eq!(s.states.screen, Some(MainScreenState::MainGame));
    assert!(matches!(s.process_line("/save 1"), Response::NoEffect));
    assert!(matches!(
        s.process_line("/save 1000"),
        Response::BadCommand(xork::commands::ParseError::InvalidArgument)
    ));
    assert!(matches!(s.process_line("/q"), Response::Exiting));
    assert_eq!(s.states.main, MainState::Wrapup);
    assert!(matches!(s.process_line("look"), Response::Inactive));
}
