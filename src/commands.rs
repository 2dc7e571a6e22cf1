//! The player's command grammar: in-world commands (`go north`, `look`, `take`)
//! and slash commands (`/help go`, `/save 3`, `/exit`, `/view inv keys`).
//! Keywords and their aliases match without regard to ASCII case; free-form
//! arguments are kept as written.
use vstd::prelude::*;
use crate::state::InventoryState;
use crate::text::{byte_number, char_matches, parse_byte, same_word, split_words, views_of, word_is, words};

verus! {

#[derive(Clone, Debug, PartialEq, Eq, Hash, PartialOrd, Ord)]
pub enum Direction {
    North,
    South,
    East,
    West,
    Up,
    Down,
    NorthEast,
    NorthWest,
    SouthEast,
    SouthWest,
    /// Into a named place, such as a shop.
    In { place: String },
}

/// A direction as a mathematical value: the place of `In` is its characters.
pub enum DirectionView {
    North,
    South,
    East,
    West,
    Up,
    Down,
    NorthEast,
    NorthWest,
    SouthEast,
    SouthWest,
    In(Seq<char>),
}

impl View for Direction {
    type V = DirectionView;

    open spec fn view(&self) -> DirectionView {
        match self {
            Direction::North => DirectionView::North,
            Direction::South => DirectionView::South,
            Direction::East => DirectionView::East,
            Direction::West => DirectionView::West,
            Direction::Up => DirectionView::Up,
            Direction::Down => DirectionView::Down,
            Direction::NorthEast => DirectionView::NorthEast,
            Direction::NorthWest => DirectionView::NorthWest,
            Direction::SouthEast => DirectionView::SouthEast,
            Direction::SouthWest => DirectionView::SouthWest,
            Direction::In { place } => DirectionView::In(place@),
        }
    }
}

impl Direction {
    /// A copy of this direction.
    pub fn duplicate(&self) -> (r: Direction)
        ensures
            r@ == self@,
    {
        match self {
            Direction::North => Direction::North,
            Direction::South => Direction::South,
            Direction::East => Direction::East,
            Direction::West => Direction::West,
            Direction::Up => Direction::Up,
            Direction::Down => Direction::Down,
            Direction::NorthEast => Direction::NorthEast,
            Direction::NorthWest => Direction::NorthWest,
            Direction::SouthEast => Direction::SouthEast,
            Direction::SouthWest => Direction::SouthWest,
            Direction::In { place } => Direction::In { place: place.clone() },
        }
    }

    /// Whether the two directions are the same, places compared by their characters.
    pub fn same_as(&self, other: &Direction) -> (r: bool)
        ensures
            r == (self@ == other@),
    {
        match (self, other) {
            (Direction::North, Direction::North) => true,
            (Direction::South, Direction::South) => true,
            (Direction::East, Direction::East) => true,
            (Direction::West, Direction::West) => true,
            (Direction::Up, Direction::Up) => true,
            (Direction::Down, Direction::Down) => true,
            (Direction::NorthEast, Direction::NorthEast) => true,
            (Direction::NorthWest, Direction::NorthWest) => true,
            (Direction::SouthEast, Direction::SouthEast) => true,
            (Direction::SouthWest, Direction::SouthWest) => true,
            (Direction::In { place: a }, Direction::In { place: b }) => *a == *b,
            _ => false,
        }
    }
}

#[derive(Clone, Copy, Debug, PartialEq, Eq, Structural, Hash, PartialOrd, Ord)]
pub enum ViewScreen {
    Game,
    /// An inventory screen, on a given category or on the current one.
    Inventory { sub_screen: Option<InventoryState> },
    Spells,
    Stats,
    Quests,
    Notifications,
}

/// The name of an in-world command, as `/help` takes it.
#[derive(Clone, Copy, Debug, PartialEq, Eq, Structural, Hash, PartialOrd, Ord)]
pub enum GameCmdName {
    Go,
    Look,
    Take,
    Inventory,
}

#[derive(Clone, Debug, PartialEq, Eq, PartialOrd, Ord)]
pub enum GameCmd {
    Go { direction: Direction },
    Look,
    Take,
    Inventory,
}

pub enum GameCmdView {
    Go(DirectionView),
    Look,
    Take,
    Inventory,
}

impl View for GameCmd {
    type V = GameCmdView;

    open spec fn view(&self) -> GameCmdView {
        match self {
            GameCmd::Go { direction } => GameCmdView::Go(direction@),
            GameCmd::Look => GameCmdView::Look,
            GameCmd::Take => GameCmdView::Take,
            GameCmd::Inventory => GameCmdView::Inventory,
        }
    }
}

#[derive(Clone, Copy, Debug, PartialEq, Eq, Structural, PartialOrd, Ord)]
pub enum SlashCmd {
    Help { with: GameCmdName },
    Save { save_slot: u8 },
    Exit,
    View { screen: ViewScreen },
}

#[derive(Clone, Copy, Debug, PartialEq, Eq, Structural, Hash)]
pub enum ParseError {
    /// The text matched no command of the grammar.
    UnrecognizedCommand,
    /// A recognised command had a malformed argument.
    InvalidArgument,
}

/// A parsed line: an in-world command or a slash command.
#[derive(Clone, Debug, PartialEq, Eq)]
pub enum Command {
    Game(GameCmd),
    Slash(SlashCmd),
}

pub enum CommandView {
    Game(GameCmdView),
    Slash(SlashCmd),
}

impl View for Command {
    type V = CommandView;

    open spec fn view(&self) -> CommandView {
        match self {
            Command::Game(c) => CommandView::Game(c@),
            Command::Slash(c) => CommandView::Slash(*c),
        }
    }
}

pub open spec fn direction_word(w: Seq<char>) -> Option<DirectionView> {
    if same_word(w, "north"@) || same_word(w, "n"@) {
        Some(DirectionView::North)
    } else if same_word(w, "south"@) || same_word(w, "s"@) {
        Some(DirectionView::South)
    } else if same_word(w, "east"@) || same_word(w, "e"@) {
        Some(DirectionView::East)
    } else if same_word(w, "west"@) || same_word(w, "w"@) {
        Some(DirectionView::West)
    } else if same_word(w, "up"@) {
        Some(DirectionView::Up)
    } else if same_word(w, "down"@) {
        Some(DirectionView::Down)
    } else if same_word(w, "north-east"@) || same_word(w, "ne"@) {
        Some(DirectionView::NorthEast)
    } else if same_word(w, "north-west"@) || same_word(w, "nw"@) {
        Some(DirectionView::NorthWest)
    } else if same_word(w, "south-east"@) || same_word(w, "se"@) {
        Some(DirectionView::SouthEast)
    } else if same_word(w, "south-west"@) || same_word(w, "sw"@) {
        Some(DirectionView::SouthWest)
    } else {
        None
    }
}

/// The direction that the words after `go` name: one direction word, or `in` and a place.
pub open spec fn direction_of(ts: Seq<Seq<char>>) -> Option<DirectionView> {
    if ts.len() == 1 {
        direction_word(ts[0])
    } else if ts.len() == 2 && same_word(ts[0], "in"@) {
        Some(DirectionView::In(ts[1]))
    } else {
        None
    }
}

pub open spec fn game_name(w: Seq<char>) -> Option<GameCmdName> {
    if same_word(w, "go"@) || same_word(w, "move"@) || same_word(w, "walk"@) || same_word(
        w,
        "g"@,
    ) {
        Some(GameCmdName::Go)
    } else if same_word(w, "look"@) || same_word(w, "examine"@) || same_word(w, "observe"@)
        || same_word(w, "behold"@) {
        Some(GameCmdName::Look)
    } else if same_word(w, "take"@) || same_word(w, "pick-up"@) || same_word(w, "yoink"@) {
        Some(GameCmdName::Take)
    } else if same_word(w, "inventory"@) || same_word(w, "inv"@) || same_word(w, "list"@)
        || same_word(w, "ls"@) {
        Some(GameCmdName::Inventory)
    } else {
        None
    }
}

/// The in-world command that the words `ts` spell; a lone direction means going that way.
pub open spec fn parse_game(ts: Seq<Seq<char>>) -> Result<GameCmdView, ParseError> {
    if ts.len() == 0 {
        Err(ParseError::UnrecognizedCommand)
    } else {
        match game_name(ts[0]) {
            Some(GameCmdName::Go) => match direction_of(ts.skip(1)) {
                Some(d) => Ok(GameCmdView::Go(d)),
                None => Err(ParseError::UnrecognizedCommand),
            },
            Some(GameCmdName::Look) => if ts.len() == 1 {
                Ok(GameCmdView::Look)
            } else {
                Err(ParseError::UnrecognizedCommand)
            },
            Some(GameCmdName::Take) => if ts.len() == 1 {
                Ok(GameCmdView::Take)
            } else {
                Err(ParseError::UnrecognizedCommand)
            },
            Some(GameCmdName::Inventory) => if ts.len() == 1 {
                Ok(GameCmdView::Inventory)
            } else {
                Err(ParseError::UnrecognizedCommand)
            },
            None => match direction_of(ts) {
                Some(d) => Ok(GameCmdView::Go(d)),
                None => Err(ParseError::UnrecognizedCommand),
            },
        }
    }
}

pub open spec fn category_word(w: Seq<char>) -> Option<InventoryState> {
    if same_word(w, "all"@) || same_word(w, "a"@) || same_word(w, "*"@) {
        Some(InventoryState::All)
    } else if same_word(w, "consumables"@) || same_word(w, "c"@) {
        Some(InventoryState::Consumables)
    } else if same_word(w, "equipment"@) || same_word(w, "equip"@) || same_word(w, "e"@) {
        Some(InventoryState::Equipment)
    } else if same_word(w, "weapons"@) || same_word(w, "w"@) {
        Some(InventoryState::Weapons)
    } else if same_word(w, "key-items"@) || same_word(w, "keys"@) {
        Some(InventoryState::KeyItems)
    } else {
        None
    }
}

pub open spec fn is_inventory_word(w: Seq<char>) -> bool {
    same_word(w, "inventory"@) || same_word(w, "inv"@)
}

pub open spec fn screen_word(w: Seq<char>) -> Option<ViewScreen> {
    if same_word(w, "game"@) || same_word(w, "main"@) {
        Some(ViewScreen::Game)
    } else if is_inventory_word(w) {
        Some(ViewScreen::Inventory { sub_screen: None })
    } else if same_word(w, "spells"@) {
        Some(ViewScreen::Spells)
    } else if same_word(w, "stats"@) {
        Some(ViewScreen::Stats)
    } else if same_word(w, "quests"@) {
        Some(ViewScreen::Quests)
    } else if same_word(w, "notifications"@) || same_word(w, "notifs"@) {
        Some(ViewScreen::Notifications)
    } else {
        None
    }
}

/// The screen that the words after `/view` name.
pub open spec fn screen_of(ts: Seq<Seq<char>>) -> Option<ViewScreen> {
    if ts.len() == 1 {
        screen_word(ts[0])
    } else if ts.len() == 2 && is_inventory_word(ts[0]) && category_word(ts[1]).is_some() {
        Some(ViewScreen::Inventory { sub_screen: category_word(ts[1]) })
    } else {
        None
    }
}

pub open spec fn is_help_word(w: Seq<char>) -> bool {
    same_word(w, "/help"@) || same_word(w, "/?"@) || same_word(w, "/h"@)
}

pub open spec fn is_exit_word(w: Seq<char>) -> bool {
    same_word(w, "/exit"@) || same_word(w, "/e"@) || same_word(w, "/quit"@) || same_word(w, "/q"@)
}

pub open spec fn is_view_word(w: Seq<char>) -> bool {
    same_word(w, "/view"@) || same_word(w, "/v"@)
}

/// The slash command that the words `ts` spell.
pub open spec fn parse_slash(ts: Seq<Seq<char>>) -> Result<SlashCmd, ParseError> {
    if ts.len() == 0 {
        Err(ParseError::UnrecognizedCommand)
    } else if is_help_word(ts[0]) {
        if ts.len() == 2 && game_name(ts[1]).is_some() {
            Ok(SlashCmd::Help { with: game_name(ts[1]).unwrap() })
        } else {
            Err(ParseError::UnrecognizedCommand)
        }
    } else if same_word(ts[0], "/save"@) {
        if ts.len() != 2 {
            Err(ParseError::UnrecognizedCommand)
        } else if byte_number(ts[1]).is_some() {
            Ok(SlashCmd::Save { save_slot: byte_number(ts[1]).unwrap() })
        } else {
            Err(ParseError::InvalidArgument)
        }
    } else if is_exit_word(ts[0]) {
        if ts.len() == 1 {
            Ok(SlashCmd::Exit)
        } else {
            Err(ParseError::UnrecognizedCommand)
        }
    } else if is_view_word(ts[0]) {
        match screen_of(ts.drop_first()) {
            Some(s) => Ok(SlashCmd::View { screen: s }),
            None => Err(ParseError::UnrecognizedCommand),
        }
    } else {
        Err(ParseError::UnrecognizedCommand)
    }
}

/// A line of player input: a slash command when it begins with `/`, an in-world command
/// otherwise, each read from the line's whitespace-separated words.
pub open spec fn parse_line(s: Seq<char>) -> Result<CommandView, ParseError> {
    if s.len() > 0 && s[0] == '/' {
        match parse_slash(words(s)) {
            Ok(c) => Ok(CommandView::Slash(c)),
            Err(e) => Err(e),
        }
    } else {
        match parse_game(words(s)) {
            Ok(c) => Ok(CommandView::Game(c)),
            Err(e) => Err(e),
        }
    }
}

pub open spec fn game_result_view(r: Result<GameCmd, ParseError>) -> Result<
    GameCmdView,
    ParseError,
> {
    match r {
        Ok(c) => Ok(c@),
        Err(e) => Err(e),
    }
}

pub open spec fn command_result_view(r: Result<Command, ParseError>) -> Result<
    CommandView,
    ParseError,
> {
    match r {
        Ok(c) => Ok(c@),
        Err(e) => Err(e),
    }
}

/// The direction that one word names.
pub fn direction_from_word(w: &str) -> (r: Option<Direction>)
    ensures
        r.is_some() == direction_word(w@).is_some(),
        r.is_some() ==> direction_word(w@) == Some(r.unwrap()@),
{
    if word_is(w, "north") || word_is(w, "n") {
        Some(Direction::North)
    } else if word_is(w, "south") || word_is(w, "s") {
        Some(Direction::South)
    } else if word_is(w, "east") || word_is(w, "e") {
        Some(Direction::East)
    } else if word_is(w, "west") || word_is(w, "w") {
        Some(Direction::West)
    } else if word_is(w, "up") {
        Some(Direction::Up)
    } else if word_is(w, "down") {
        Some(Direction::Down)
    } else if word_is(w, "north-east") || word_is(w, "ne") {
        Some(Direction::NorthEast)
    } else if word_is(w, "north-west") || word_is(w, "nw") {
        Some(Direction::NorthWest)
    } else if word_is(w, "south-east") || word_is(w, "se") {
        Some(Direction::SouthEast)
    } else if word_is(w, "south-west") || word_is(w, "sw") {
        Some(Direction::SouthWest)
    } else {
        None
    }
}

/// The in-world command that one word names.
pub fn game_name_from_word(w: &str) -> (r: Option<GameCmdName>)
    ensures
        r == game_name(w@),
{
    if word_is(w, "go") || word_is(w, "move") || word_is(w, "walk") || word_is(w, "g") {
        Some(GameCmdName::Go)
    } else if word_is(w, "look") || word_is(w, "examine") || word_is(w, "observe") || word_is(
        w,
        "behold",
    ) {
        Some(GameCmdName::Look)
    } else if word_is(w, "take") || word_is(w, "pick-up") || word_is(w, "yoink") {
        Some(GameCmdName::Take)
    } else if word_is(w, "inventory") || word_is(w, "inv") || word_is(w, "list") || word_is(
        w,
        "ls",
    ) {
        Some(GameCmdName::Inventory)
    } else {
        None
    }
}

/// The inventory category that one word names.
pub fn category_from_word(w: &str) -> (r: Option<InventoryState>)
    ensures
        r == category_word(w@),
{
    if word_is(w, "all") || word_is(w, "a") || word_is(w, "*") {
        Some(InventoryState::All)
    } else if word_is(w, "consumables") || word_is(w, "c") {
        Some(InventoryState::Consumables)
    } else if word_is(w, "equipment") || word_is(w, "equip") || word_is(w, "e") {
        Some(InventoryState::Equipment)
    } else if word_is(w, "weapons") || word_is(w, "w") {
        Some(InventoryState::Weapons)
    } else if word_is(w, "key-items") || word_is(w, "keys") {
        Some(InventoryState::KeyItems)
    } else {
        None
    }
}

/// The screen that one word names.
pub fn screen_from_word(w: &str) -> (r: Option<ViewScreen>)
    ensures
        r == screen_word(w@),
{
    if word_is(w, "game") || word_is(w, "main") {
        Some(ViewScreen::Game)
    } else if word_is(w, "inventory") || word_is(w, "inv") {
        Some(ViewScreen::Inventory { sub_screen: None })
    } else if word_is(w, "spells") {
        Some(ViewScreen::Spells)
    } else if word_is(w, "stats") {
        Some(ViewScreen::Stats)
    } else if word_is(w, "quests") {
        Some(ViewScreen::Quests)
    } else if word_is(w, "notifications") || word_is(w, "notifs") {
        Some(ViewScreen::Notifications)
    } else {
        None
    }
}

/// The direction named by the words of `args` from index `skip` on.
fn direction_from_args(args: &[&str], skip: usize) -> (r: Option<Direction>)
    requires
        skip <= args@.len(),
    ensures
        r.is_some() == direction_of(views_of(args@).skip(skip as int)).is_some(),
        r.is_some() ==> direction_of(views_of(args@).skip(skip as int)) == Some(r.unwrap()@),
{
    let ghost rest = views_of(args@).skip(skip as int);
    assert(rest.len() == args@.len() - skip);
    if args.len() - skip == 1 {
        assert(rest[0] == args@[skip as int]@);
        direction_from_word(args[skip])
    } else if args.len() - skip == 2 && word_is(args[skip], "in") {
        assert(rest[0] == args@[skip as int]@);
        assert(rest[1] == args@[skip + 1]@);
        let place = args[skip + 1].to_owned();
        Some(Direction::In { place })
    } else {
        proof {
            if rest.len() == 2 {
                assert(rest[0] == args@[skip as int]@);
            }
        }
        None
    }
}

/// The screen named by the words of `args` from index 1 on.
fn screen_after_first(args: &[&str]) -> (r: Option<ViewScreen>)
    requires
        args@.len() >= 1,
    ensures
        r == screen_of(views_of(args@).drop_first()),
{
    let ghost rest = views_of(args@).drop_first();
    assert(rest.len() == args@.len() - 1);
    if args.len() == 2 {
        assert(rest[0] == args@[1]@);
        screen_from_word(args[1])
    } else if args.len() == 3 && (word_is(args[1], "inventory") || word_is(args[1], "inv")) {
        assert(rest[0] == args@[1]@);
        assert(rest[1] == args@[2]@);
        match category_from_word(args[2]) {
            Some(c) => Some(ViewScreen::Inventory { sub_screen: Some(c) }),
            None => None,
        }
    } else {
        proof {
            if args@.len() == 3 {
                assert(rest[0] == args@[1]@);
            }
        }
        None
    }
}

impl GameCmd {
    /// Reads an in-world command from its words.
    pub fn try_parse_from(args: &[&str]) -> (r: Result<GameCmd, ParseError>)
        ensures
            game_result_view(r) == parse_game(views_of(args@)),
    {
        if args.len() == 0 {
            return Err(ParseError::UnrecognizedCommand);
        }
        assert(views_of(args@)[0] == args@[0]@);
        match game_name_from_word(args[0]) {
            Some(GameCmdName::Go) => match direction_from_args(args, 1) {
                Some(direction) => Ok(GameCmd::Go { direction }),
                None => Err(ParseError::UnrecognizedCommand),
            },
            Some(GameCmdName::Look) => if args.len() == 1 {
                Ok(GameCmd::Look)
            } else {
                Err(ParseError::UnrecognizedCommand)
            },
            Some(GameCmdName::Take) => if args.len() == 1 {
                Ok(GameCmd::Take)
            } else {
                Err(ParseError::UnrecognizedCommand)
            },
            Some(GameCmdName::Inventory) => if args.len() == 1 {
                Ok(GameCmd::Inventory)
            } else {
                Err(ParseError::UnrecognizedCommand)
            },
            None => {
                assert(views_of(args@).skip(0) =~= views_of(args@));
                match direction_from_args(args, 0) {
                    Some(direction) => Ok(GameCmd::Go { direction }),
                    None => Err(ParseError::UnrecognizedCommand),
                }
            },
        }
    }
}

impl SlashCmd {
    /// Reads a slash command from its words.
    pub fn try_parse_from(args: &[&str]) -> (r: Result<SlashCmd, ParseError>)
        ensures
            r == parse_slash(views_of(args@)),
    {
        if args.len() == 0 {
            return Err(ParseError::UnrecognizedCommand);
        }
        let ghost ts = views_of(args@);
        assert(ts[0] == args@[0]@);
        let first = args[0];
        if word_is(first, "/help") || word_is(first, "/?") || word_is(first, "/h") {
            if args.len() == 2 {
                assert(ts[1] == args@[1]@);
                match game_name_from_word(args[1]) {
                    Some(with) => Ok(SlashCmd::Help { with }),
                    None => Err(ParseError::UnrecognizedCommand),
                }
            } else {
                Err(ParseError::UnrecognizedCommand)
            }
        } else if word_is(first, "/save") {
            if args.len() != 2 {
                Err(ParseError::UnrecognizedCommand)
            } else {
                assert(ts[1] == args@[1]@);
                match parse_byte(args[1]) {
                    Some(save_slot) => Ok(SlashCmd::Save { save_slot }),
                    None => Err(ParseError::InvalidArgument),
                }
            }
        } else if word_is(first, "/exit") || word_is(first, "/e") || word_is(first, "/quit")
            || word_is(first, "/q") {
            if args.len() == 1 {
                Ok(SlashCmd::Exit)
            } else {
                Err(ParseError::UnrecognizedCommand)
            }
        } else if word_is(first, "/view") || word_is(first, "/v") {
            match screen_after_first(args) {
                Some(screen) => Ok(SlashCmd::View { screen }),
                None => Err(ParseError::UnrecognizedCommand),
            }
        } else {
            Err(ParseError::UnrecognizedCommand)
        }
    }
}

/// Reads a line of player input: a slash command when it begins with `/`, an in-world
/// command otherwise.
pub fn parse_command(line: &str) -> (r: Result<Command, ParseError>)
    ensures
        command_result_view(r) == parse_line(line@),
{
    let toks = split_words(line);
    let slash = line.unicode_len() > 0 && line.get_char(0) == '/';
    if slash {
        match SlashCmd::try_parse_from(toks.as_slice()) {
            Ok(c) => Ok(Command::Slash(c)),
            Err(e) => Err(e),
        }
    } else {
        match GameCmd::try_parse_from(toks.as_slice()) {
            Ok(c) => Ok(Command::Game(c)),
            Err(e) => Err(e),
        }
    }
}

proof fn lemma_slash_mismatch(w: Seq<char>, kw: Seq<char>)
    requires
        w.len() > 0,
        w[0] == '/',
        kw.len() > 0,
        kw[0] != '/',
    ensures
        !same_word(w, kw),
{
    if same_word(w, kw) {
        assert(char_matches(w[0], kw[0]));
    }
}

/// No in-world command name begins with `/`.
proof fn lemma_game_name_not_slash(w: Seq<char>)
    requires
        w.len() > 0,
        w[0] == '/',
    ensures
        game_name(w) is None,
{
    reveal_strlit("go");
    lemma_slash_mismatch(w, "go"@);
    reveal_strlit("move");
    lemma_slash_mismatch(w, "move"@);
    reveal_strlit("walk");
    lemma_slash_mismatch(w, "walk"@);
    reveal_strlit("g");
    lemma_slash_mismatch(w, "g"@);
    reveal_strlit("look");
    lemma_slash_mismatch(w, "look"@);
    reveal_strlit("examine");
    lemma_slash_mismatch(w, "examine"@);
    reveal_strlit("observe");
    lemma_slash_mismatch(w, "observe"@);
    reveal_strlit("behold");
    lemma_slash_mismatch(w, "behold"@);
    reveal_strlit("take");
    lemma_slash_mismatch(w, "take"@);
    reveal_strlit("pick-up");
    lemma_slash_mismatch(w, "pick-up"@);
    reveal_strlit("yoink");
    lemma_slash_mismatch(w, "yoink"@);
    reveal_strlit("inventory");
    lemma_slash_mismatch(w, "inventory"@);
    reveal_strlit("inv");
    lemma_slash_mismatch(w, "inv"@);
    reveal_strlit("list");
    lemma_slash_mismatch(w, "list"@);
    reveal_strlit("ls");
    lemma_slash_mismatch(w, "ls"@);
}

/// No direction word, nor `in`, begins with `/`.
proof fn lemma_direction_word_not_slash(w: Seq<char>)
    requires
        w.len() > 0,
        w[0] == '/',
    ensures
        direction_word(w) is None,
        !same_word(w, "in"@),
{
    reveal_strlit("north");
    lemma_slash_mismatch(w, "north"@);
    reveal_strlit("n");
    lemma_slash_mismatch(w, "n"@);
    reveal_strlit("south");
    lemma_slash_mismatch(w, "south"@);
    reveal_strlit("s");
    lemma_slash_mismatch(w, "s"@);
    reveal_strlit("east");
    lemma_slash_mismatch(w, "east"@);
    reveal_strlit("e");
    lemma_slash_mismatch(w, "e"@);
    reveal_strlit("west");
    lemma_slash_mismatch(w, "west"@);
    reveal_strlit("w");
    lemma_slash_mismatch(w, "w"@);
    reveal_strlit("up");
    lemma_slash_mismatch(w, "up"@);
    reveal_strlit("down");
    lemma_slash_mismatch(w, "down"@);
    reveal_strlit("north-east");
    lemma_slash_mismatch(w, "north-east"@);
    reveal_strlit("ne");
    lemma_slash_mismatch(w, "ne"@);
    reveal_strlit("north-west");
    lemma_slash_mismatch(w, "north-west"@);
    reveal_strlit("nw");
    lemma_slash_mismatch(w, "nw"@);
    reveal_strlit("south-east");
    lemma_slash_mismatch(w, "south-east"@);
    reveal_strlit("se");
    lemma_slash_mismatch(w, "se"@);
    reveal_strlit("south-west");
    lemma_slash_mismatch(w, "south-west"@);
    reveal_strlit("sw");
    lemma_slash_mismatch(w, "sw"@);
    reveal_strlit("in");
    lemma_slash_mismatch(w, "in"@);
}

/// Parsing is deterministic: two lines with the same characters give the same
/// command, or the same error.
pub proof fn lemma_parse_deterministic(
    a: &str,
    b: &str,
    ra: Result<Command, ParseError>,
    rb: Result<Command, ParseError>,
)
    requires
        a@ == b@,
        command_result_view(ra) == parse_line(a@),
        command_result_view(rb) == parse_line(b@),
    ensures
        command_result_view(ra) == command_result_view(rb),
{
}

/// A line that begins with `/` never gives an in-world command, and a line that does
/// not never gives a slash command. Nor do words that begin with `/` spell an
/// in-world command, wherever the line starts.
pub proof fn lemma_slash_dispatch(s: Seq<char>)
    ensures
        s.len() > 0 && s[0] == '/' ==> !(parse_line(s) matches Ok(CommandView::Game(_))),
        !(s.len() > 0 && s[0] == '/') ==> !(parse_line(s) matches Ok(CommandView::Slash(_))),
        words(s).len() > 0 && words(s)[0].len() > 0 && words(s)[0][0] == '/' ==> parse_game(
            words(s),
        ) is Err,
{
    let ts = words(s);
    if ts.len() > 0 && ts[0].len() > 0 && ts[0][0] == '/' {
        lemma_game_name_not_slash(ts[0]);
        lemma_direction_word_not_slash(ts[0]);
    }
}

} // verus!
