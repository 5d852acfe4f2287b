//! The interpreter: one typed line becomes a command, and the command a reply
//! and a change of the player's state.
use vstd::prelude::*;

use crate::direction::{direction_of, english_of, label_of, letter_of, lemma_direction_words, lemma_words_told_apart, Direction};
use crate::player::{Player, PlayerView};
use crate::room::{Room, RoomView};
use crate::text::{after_prefix, lower_of, lowercase, same_text, trim_of, trimmed};
use crate::world::World;

verus! {

/// What a line asks for.
#[derive(Clone, Debug, PartialEq, Eq)]
pub enum Command {
    /// End the game.
    Quit,
    /// Show the list of commands.
    Help,
    /// Show what the player carries.
    Inventory,
    /// Take the named item.
    Take(String),
    /// Go in a direction.
    Go(Direction),
    /// Anything else.
    Unknown,
}

/// A command, with its item name as plain characters.
pub ghost enum CommandView {
    Quit,
    Help,
    Inventory,
    Take(Seq<char>),
    Go(Direction),
    Unknown,
}

impl View for Command {
    type V = CommandView;

    open spec fn view(&self) -> CommandView {
        match self {
            Command::Quit => CommandView::Quit,
            Command::Help => CommandView::Help,
            Command::Inventory => CommandView::Inventory,
            Command::Take(item) => CommandView::Take(item@),
            Command::Go(d) => CommandView::Go(*d),
            Command::Unknown => CommandView::Unknown,
        }
    }
}

/// What the game answers to a line.
#[derive(Clone, Debug, PartialEq, Eq)]
pub enum Reply {
    /// The game ends.
    Quit,
    /// The list of commands is shown.
    Help,
    /// What the player carries is shown.
    Inventory,
    /// The player took the named item.
    Took(String),
    /// The player went in the direction.
    Moved(Direction),
    /// The direction has no exit from the current room.
    NoExit,
    /// The line was not understood.
    Unknown,
    /// The player's room is not in the world.
    RoomMissing,
}

/// A reply, with its item name as plain characters.
pub ghost enum ReplyView {
    Quit,
    Help,
    Inventory,
    Took(Seq<char>),
    Moved(Direction),
    NoExit,
    Unknown,
    RoomMissing,
}

impl View for Reply {
    type V = ReplyView;

    open spec fn view(&self) -> ReplyView {
        match self {
            Reply::Quit => ReplyView::Quit,
            Reply::Help => ReplyView::Help,
            Reply::Inventory => ReplyView::Inventory,
            Reply::Took(item) => ReplyView::Took(item@),
            Reply::Moved(d) => ReplyView::Moved(*d),
            Reply::NoExit => ReplyView::NoExit,
            Reply::Unknown => ReplyView::Unknown,
            Reply::RoomMissing => ReplyView::RoomMissing,
        }
    }
}

/// The command that a trimmed, lowercase line gives. Whole-line words come
/// first, then the prefixes that take an item, then directions.
pub open spec fn command_of(t: Seq<char>) -> CommandView {
    if t == "退出"@ || t == "exit"@ || t == "quit"@ {
        CommandView::Quit
    } else if t == "帮助"@ || t == "help"@ {
        CommandView::Help
    } else if t == "查看背包"@ || t == "背包"@ || t == "inventory"@ {
        CommandView::Inventory
    } else if "拿取 "@.is_prefix_of(t) {
        CommandView::Take(t.skip("拿取 "@.len() as int))
    } else if "take "@.is_prefix_of(t) {
        CommandView::Take(t.skip("take "@.len() as int))
    } else if "get "@.is_prefix_of(t) {
        CommandView::Take(t.skip("get "@.len() as int))
    } else {
        match direction_of(t) {
            Some(d) => CommandView::Go(d),
            None => CommandView::Unknown,
        }
    }
}

/// The reply to a command given in a room with the given exits.
pub open spec fn reply_of(c: CommandView, exits: Map<Direction, Seq<char>>) -> ReplyView {
    match c {
        CommandView::Quit => ReplyView::Quit,
        CommandView::Help => ReplyView::Help,
        CommandView::Inventory => ReplyView::Inventory,
        CommandView::Take(item) => ReplyView::Took(item),
        CommandView::Go(d) => if exits.contains_key(d) {
            ReplyView::Moved(d)
        } else {
            ReplyView::NoExit
        },
        CommandView::Unknown => ReplyView::Unknown,
    }
}

/// The player after a command given in a room with the given exits: an item
/// taken is added after those carried, and a direction with an exit moves the
/// player to where it leads.
pub open spec fn player_after(
    c: CommandView,
    exits: Map<Direction, Seq<char>>,
    p: PlayerView,
) -> PlayerView {
    match c {
        CommandView::Take(item) => PlayerView { inventory: p.inventory.push(item), ..p },
        CommandView::Go(d) => if exits.contains_key(d) {
            PlayerView { current_room_id: exits[d], ..p }
        } else {
            p
        },
        _ => p,
    }
}

/// The reply and the player after a trimmed, lowercase line, in the world `w`.
pub open spec fn turn(
    w: Map<Seq<char>, RoomView>,
    p: PlayerView,
    t: Seq<char>,
) -> (ReplyView, PlayerView) {
    if w.contains_key(p.current_room_id) {
        let exits = w[p.current_room_id].exits;
        (reply_of(command_of(t), exits), player_after(command_of(t), exits, p))
    } else {
        (ReplyView::RoomMissing, p)
    }
}

/// The form in which a line is read: without the whitespace around it, in
/// lowercase.
pub open spec fn normal_form(line: Seq<char>) -> Seq<char> {
    lower_of(trim_of(line))
}

/// The line without the whitespace around it, in lowercase.
pub fn normalize(line: &str) -> (r: String)
    ensures
        r@ == normal_form(line@),
{
    lowercase(trimmed(line))
}

/// The command that a trimmed, lowercase line gives.
pub fn parse_command(t: &str) -> (c: Command)
    ensures
        c@ == command_of(t@),
{
    if same_text(t, "退出") || same_text(t, "exit") || same_text(t, "quit") {
        return Command::Quit;
    }
    if same_text(t, "帮助") || same_text(t, "help") {
        return Command::Help;
    }
    if same_text(t, "查看背包") || same_text(t, "背包") || same_text(t, "inventory") {
        return Command::Inventory;
    }
    if let Some(item) = after_prefix(t, "拿取 ") {
        return Command::Take(item.to_owned());
    }
    if let Some(item) = after_prefix(t, "take ") {
        return Command::Take(item.to_owned());
    }
    if let Some(item) = after_prefix(t, "get ") {
        return Command::Take(item.to_owned());
    }
    match Direction::from_token(t) {
        Some(d) => Command::Go(d),
        None => Command::Unknown,
    }
}

/// Carries out a command in `room`, where the player stands.
pub fn apply(cmd: Command, room: &Room, player: &mut Player) -> (r: Reply)
    ensures
        r@ == reply_of(cmd@, room@.exits),
        final(player)@ == player_after(cmd@, room@.exits, old(player)@),
{
    match cmd {
        Command::Quit => Reply::Quit,
        Command::Help => Reply::Help,
        Command::Inventory => Reply::Inventory,
        Command::Take(item) => {
            player.add_item(item.clone());
            Reply::Took(item)
        },
        Command::Go(d) => match room.get_exit(&d) {
            Some(target) => {
                player.move_to(target.clone());
                Reply::Moved(d)
            },
            None => Reply::NoExit,
        },
        Command::Unknown => Reply::Unknown,
    }
}

/// Plays one trimmed, lowercase line: finds the player's room, then carries
/// out the command the line gives.
pub fn interpret(world: &World, player: &mut Player, t: &str) -> (r: Reply)
    ensures
        (r@, final(player)@) == turn(world@, old(player)@, t@),
{
    match world.get(player.current_room_id.as_str()) {
        Some(room) => apply(parse_command(t), room, player),
        None => Reply::RoomMissing,
    }
}

/// Plays one line as typed.
pub fn step(world: &World, player: &mut Player, line: &str) -> (r: Reply)
    ensures
        (r@, final(player)@) == turn(world@, old(player)@, normal_form(line@)),
{
    let t = normalize(line);
    interpret(world, player, t.as_str())
}

/// Taking an item adds it after the items the player carries and changes
/// nothing else of the player. The world, with the items of its rooms, is only
/// read.
pub proof fn lemma_take_appends(
    w: Map<Seq<char>, RoomView>,
    p: PlayerView,
    t: Seq<char>,
    item: Seq<char>,
)
    requires
        w.contains_key(p.current_room_id),
        command_of(t) == CommandView::Take(item),
    ensures
        turn(w, p, t).0 == ReplyView::Took(item),
        turn(w, p, t).1 == (PlayerView { inventory: p.inventory.push(item), ..p }),
        turn(w, p, t).1.inventory.len() == p.inventory.len() + 1,
        turn(w, p, t).1.current_room_id == p.current_room_id,
{
}

/// Going in a direction that has no exit from the player's room leaves the
/// player as they were, and the reply says there is no exit.
pub proof fn lemma_no_exit_stays(
    w: Map<Seq<char>, RoomView>,
    p: PlayerView,
    t: Seq<char>,
    d: Direction,
)
    requires
        w.contains_key(p.current_room_id),
        command_of(t) == CommandView::Go(d),
        !w[p.current_room_id].exits.contains_key(d),
    ensures
        turn(w, p, t) == (ReplyView::NoExit, p),
{
}

/// Going in a direction that has an exit from the player's room puts the
/// player in the room that exit leads to, changes nothing else of the player,
/// and the reply names the direction.
pub proof fn lemma_exit_moves(
    w: Map<Seq<char>, RoomView>,
    p: PlayerView,
    t: Seq<char>,
    d: Direction,
)
    requires
        w.contains_key(p.current_room_id),
        command_of(t) == CommandView::Go(d),
        w[p.current_room_id].exits.contains_key(d),
    ensures
        turn(w, p, t) == (ReplyView::Moved(d), PlayerView {
            current_room_id: w[p.current_room_id].exits[d],
            ..p
        }),
{
}

/// The lengths and first characters of the words and prefixes of commands
/// other than directions.
proof fn lemma_command_words()
    ensures
        "退出"@.len() == 2 && "退出"@[0] == '退',
        "exit"@.len() == 4 && "exit"@[0] == 'e' && "exit"@[1] == 'x',
        "quit"@.len() == 4 && "quit"@[0] == 'q',
        "帮助"@.len() == 2 && "帮助"@[0] == '帮',
        "help"@.len() == 4 && "help"@[0] == 'h',
        "查看背包"@.len() == 4 && "查看背包"@[0] == '查',
        "背包"@.len() == 2 && "背包"@[0] == '背',
        "inventory"@.len() == 9,
        "拿取 "@.len() == 3 && "拿取 "@[0] == '拿',
        "take "@.len() == 5 && "take "@[0] == 't',
        "get "@.len() == 4 && "get "@[0] == 'g',
{
    reveal_strlit("退出");
    reveal_strlit("exit");
    reveal_strlit("quit");
    reveal_strlit("帮助");
    reveal_strlit("help");
    reveal_strlit("查看背包");
    reveal_strlit("背包");
    reveal_strlit("inventory");
    reveal_strlit("拿取 ");
    reveal_strlit("take ");
    reveal_strlit("get ");
}

/// Each word that names a direction, as a line, is a command to go that way.
pub proof fn lemma_direction_word_goes(t: Seq<char>, d: Direction)
    requires
        t == english_of(d) || t == letter_of(d) || t == label_of(d),
    ensures
        command_of(t) == CommandView::Go(d),
{
    lemma_direction_words(t, d);
    lemma_command_words();
    lemma_words_told_apart();
    assert(!"拿取 "@.is_prefix_of(t));
    assert(!"take "@.is_prefix_of(t));
    assert(!"get "@.is_prefix_of(t));
}

} // verus!
