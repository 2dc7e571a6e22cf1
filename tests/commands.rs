use xork::commands::{
    parse_command, Command, Direction, GameCmd, GameCmdName, ParseError, SlashCmd, ViewScreen,
};
use xork::state::InventoryState;
use xork::text::{parse_byte, same_text, split_words, word_is};

#[test]
fn commands_client_cmd_parse() {
    let cmd = GameCmd::try_parse_from(&["take", "nut", "cracker", "9000"]);
    if cmd.is_ok() {
        println!("{:?}", cmd);
    }
    assert!(cmd.is_err(), "can not YET take specififc items");

    let cmd = GameCmd::try_parse_from(&["go", "n"]);
    if cmd.is_err() {
        println!("{:?}", cmd);
    }
    assert!(
        cmd.is_ok_and(|parsed| parsed
            == GameCmd::Go {
                direction: Direction::North
            }),
        "command was expected to parse to a \"{:?}\" command, holding the directions: \"{:?}\"",
        GameCmdName::Go,
        Direction::North
    );

    let cmd = GameCmd::try_parse_from(&["foo", "bar"]);
    if cmd.is_ok() {
        println!("{:?}", cmd);
    }
    assert!(cmd.is_err(), "foo bar is a command now?, since when?")
}

#[test]
fn commands_client_slash_cmd_parse() {
    let cmd = match SlashCmd::try_parse_from(&["/help", "go"]) {
        Ok(cmd) => cmd,
        Err(e) => panic!("{e:?}"),
    };

    assert_eq!(
        cmd,
        SlashCmd::Help {
            with: GameCmdName::Go
        },
        "expected a \"/help\" command, got: {cmd:?}",
    );

    let cmd = match SlashCmd::try_parse_from(&["/help", "walk"]) {
        Ok(cmd) => cmd,
        Err(e) => panic!("{e:?}"),
    };

    assert_eq!(
        cmd,
        SlashCmd::Help {
            with: GameCmdName::Go
        },
        "expected a \"/help\" command, got: {cmd:?}",
    );
}

fn go(d: Direction) -> Result<Command, ParseError> {
    Ok(Command::Game(GameCmd::Go { direction: d }))
}

#[test]
fn north_aliases_canonicalize() {
    assert_eq!(parse_command("n"), go(Direction::North));
    assert_eq!(parse_command("N"), go(Direction::North));
    assert_eq!(parse_command("north"), go(Direction::North));
    assert_eq!(parse_command("go north"), go(Direction::North));
    assert_eq!(parse_command("Walk NORTH"), go(Direction::North));
    assert_eq!(parse_command("g n"), go(Direction::North));
}

#[test]
fn every_direction_alias() {
    let cases = [
        ("s", Direction::South),
        ("south", Direction::South),
        ("e", Direction::East),
        ("east", Direction::East),
        ("w", Direction::West),
        ("west", Direction::West),
        ("up", Direction::Up),
        ("down", Direction::Down),
        ("ne", Direction::NorthEast),
        ("north-east", Direction::NorthEast),
        ("nw", Direction::NorthWest),
        ("north-west", Direction::NorthWest),
        ("se", Direction::SouthEast),
        ("south-east", Direction::SouthEast),
        ("sw", Direction::SouthWest),
        ("south-west", Direction::SouthWest),
    ];
    for (word, d) in cases {
        assert_eq!(parse_command(&format!("move {word}")), go(d.clone()));
        assert_eq!(parse_command(word), go(d));
    }
}

#[test]
fn grammar_is_strict() {
    assert_eq!(parse_command("foo bar"), Err(ParseError::UnrecognizedCommand));
    assert_eq!(parse_command("go"), Err(ParseError::UnrecognizedCommand));
    assert_eq!(parse_command(""), Err(ParseError::UnrecognizedCommand));
    assert_eq!(parse_command("   "), Err(ParseError::UnrecognizedCommand));
    assert_eq!(parse_command("look around"), Err(ParseError::UnrecognizedCommand));
    assert_eq!(parse_command("go north now"), Err(ParseError::UnrecognizedCommand));
    assert_eq!(parse_command("go in"), Err(ParseError::UnrecognizedCommand));
    assert_eq!(parse_command("go in the shop"), Err(ParseError::UnrecognizedCommand));
    assert_eq!(parse_command("/exit now"), Err(ParseError::UnrecognizedCommand));
    assert_eq!(parse_command("/help"), Err(ParseError::UnrecognizedCommand));
    assert_eq!(parse_command("/help fly"), Err(ParseError::UnrecognizedCommand));
    assert_eq!(parse_command("/dance"), Err(ParseError::UnrecognizedCommand));
}

#[test]
fn simple_commands_and_aliases() {
    for w in ["look", "examine", "observe", "behold", "LOOK"] {
        assert_eq!(parse_command(w), Ok(Command::Game(GameCmd::Look)));
    }
    for w in ["take", "pick-up", "yoink"] {
        assert_eq!(parse_command(w), Ok(Command::Game(GameCmd::Take)));
    }
    for w in ["inventory", "inv", "list", "ls"] {
        assert_eq!(parse_command(w), Ok(Command::Game(GameCmd::Inventory)));
    }
    assert_eq!(
        parse_command("  \tlook \u{3000}"),
        Ok(Command::Game(GameCmd::Look))
    );
}

#[test]
fn place_is_kept_verbatim() {
    assert_eq!(
        parse_command("go in Ye-Olde-Shop"),
        go(Direction::In {
            place: "Ye-Olde-Shop".to_string()
        })
    );
    assert_eq!(
        parse_command("IN shop"),
        go(Direction::In {
            place: "shop".to_string()
        })
    );
}

#[test]
fn slash_and_plain_lines_never_cross() {
    assert_eq!(parse_command("/look"), Err(ParseError::UnrecognizedCommand));
    assert_eq!(parse_command("/north"), Err(ParseError::UnrecognizedCommand));
    assert_eq!(parse_command(" /exit"), Err(ParseError::UnrecognizedCommand));
    assert_eq!(parse_command("exit"), Err(ParseError::UnrecognizedCommand));
    assert_eq!(parse_command("/exit"), Ok(Command::Slash(SlashCmd::Exit)));
    assert_eq!(parse_command("look"), Ok(Command::Game(GameCmd::Look)));
}

#[test]
fn slash_commands() {
    for w in ["/exit", "/e", "/quit", "/q", "/QUIT"] {
        assert_eq!(parse_command(w), Ok(Command::Slash(SlashCmd::Exit)));
    }
    for w in ["/help look", "/? examine", "/h behold"] {
        assert_eq!(
            parse_command(w),
            Ok(Command::Slash(SlashCmd::Help {
                with: GameCmdName::Look
            }))
        );
    }
    assert_eq!(
        parse_command("/help inv"),
        Ok(Command::Slash(SlashCmd::Help {
            with: GameCmdName::Inventory
        }))
    );
}

#[test]
fn save_slot_bounds() {
    let save = |n: u8| Ok(Command::Slash(SlashCmd::Save { save_slot: n }));
    assert_eq!(parse_command("/save 3"), save(3));
    assert_eq!(parse_command("/save 0"), save(0));
    assert_eq!(parse_command("/save 255"), save(255));
    assert_eq!(parse_command("/save 007"), save(7));
    assert_eq!(parse_command("/save +9"), save(9));
    assert_eq!(parse_command("/save 256"), Err(ParseError::InvalidArgument));
    assert_eq!(
        parse_command("/save 99999999999999999999999"),
        Err(ParseError::InvalidArgument)
    );
    assert_eq!(parse_command("/save abc"), Err(ParseError::InvalidArgument));
    assert_eq!(parse_command("/save -1"), Err(ParseError::InvalidArgument));
    assert_eq!(parse_command("/save +"), Err(ParseError::InvalidArgument));
    assert_eq!(parse_command("/save"), Err(ParseError::UnrecognizedCommand));
    assert_eq!(parse_command("/save 3 4"), Err(ParseError::UnrecognizedCommand));
}

#[test]
fn view_screens() {
    let view = |s: ViewScreen| Ok(Command::Slash(SlashCmd::View { screen: s }));
    assert_eq!(parse_command("/view game"), view(ViewScreen::Game));
    assert_eq!(parse_command("/v main"), view(ViewScreen::Game));
    assert_eq!(
        parse_command("/view inv"),
        view(ViewScreen::Inventory { sub_screen: None })
    );
    assert_eq!(
        parse_command("/view inventory keys"),
        view(ViewScreen::Inventory {
            sub_screen: Some(InventoryState::KeyItems)
        })
    );
    assert_eq!(
        parse_command("/v inv *"),
        view(ViewScreen::Inventory {
            sub_screen: Some(InventoryState::All)
        })
    );
    assert_eq!(
        parse_command("/v inv equip"),
        view(ViewScreen::Inventory {
            sub_screen: Some(InventoryState::Equipment)
        })
    );
    assert_eq!(parse_command("/view spells"), view(ViewScreen::Spells));
    assert_eq!(parse_command("/view stats"), view(ViewScreen::Stats));
    assert_eq!(parse_command("/view quests"), view(ViewScreen::Quests));
    assert_eq!(parse_command("/view notifs"), view(ViewScreen::Notifications));
    assert_eq!(parse_command("/view inv bogus"), Err(ParseError::UnrecognizedCommand));
    assert_eq!(parse_command("/view"), Err(ParseError::UnrecognizedCommand));
}

#[test]
fn parsing_twice_gives_the_same_result() {
    for line in ["go north", "/save 12", "foo", "/view inv c", "go in Shop"] {
        assert_eq!(parse_command(line), parse_command(line));
    }
}

#[test]
fn splitting_at_whitespace() {
    let ws = split_words(" go\tin \u{00A0}Shop\n");
    assert_eq!(ws, vec!["go", "in", "Shop"]);
    assert!(split_words("").is_empty());
    assert!(split_words(" \t ").is_empty());
    assert_eq!(split_words("a"), vec!["a"]);
}

#[test]
fn keyword_matching_ignores_ascii_case() {
    assert!(word_is("NoRtH", "north"));
    assert!(word_is("pick-up", "pick-up"));
    assert!(!word_is("nort", "north"));
    assert!(!word_is("northh", "north"));
    assert!(same_text("Shop", "Shop"));
    assert!(!same_text("Shop", "shop"));
}

#[test]
fn byte_numbers() {
    assert_eq!(parse_byte("42"), Some(42));
    assert_eq!(parse_byte("255"), Some(255));
    assert_eq!(parse_byte("256"), None);
    assert_eq!(parse_byte(""), None);
    assert_eq!(parse_byte("4x"), None);
}
