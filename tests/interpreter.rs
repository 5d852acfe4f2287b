use text_adventure::cave::create_world;
use text_adventure::direction::Direction;
use text_adventure::game::{apply, interpret, normalize, parse_command, step, Command, Reply};
use text_adventure::player::Player;
use text_adventure::room::Room;
use text_adventure::world::World;

#[test]
fn walk_take_and_quit() {
    let w = create_world();
    let mut p = Player::new("Ada", "entrance");
    assert_eq!(step(&w, &mut p, "north"), Reply::Moved(Direction::North));
    assert_eq!(p.current_room_id, "hall");
    assert_eq!(step(&w, &mut p, "east"), Reply::Moved(Direction::East));
    assert_eq!(p.current_room_id, "treasure");
    assert_eq!(step(&w, &mut p, "west"), Reply::Moved(Direction::West));
    assert_eq!(p.current_room_id, "hall");
    assert_eq!(step(&w, &mut p, "take coin"), Reply::Took("coin".to_string()));
    assert_eq!(p.inventory, vec!["coin".to_string()]);
    assert_eq!(step(&w, &mut p, "inventory"), Reply::Inventory);
    assert_eq!(p.inventory.len(), 1);
    assert_eq!(p.inventory[0], "coin");
    assert_eq!(step(&w, &mut p, "quit"), Reply::Quit);
    assert_eq!(p.current_room_id, "hall");
}

#[test]
fn no_exit_south_of_entrance() {
    let w = create_world();
    let mut p = Player::new("Ada", "entrance");
    assert_eq!(step(&w, &mut p, "south"), Reply::NoExit);
    assert_eq!(p.current_room_id, "entrance");
    assert!(p.inventory.is_empty());
}

#[test]
fn taking_leaves_room_items_alone() {
    let w = create_world();
    let mut p = Player::new("Ada", "entrance");
    let before = w.get("entrance").unwrap().get_items().len();
    assert_eq!(step(&w, &mut p, "take 火把"), Reply::Took("火把".to_string()));
    assert_eq!(p.inventory, vec!["火把".to_string()]);
    assert_eq!(w.get("entrance").unwrap().get_items().len(), before);
    assert_eq!(step(&w, &mut p, "get sword"), Reply::Took("sword".to_string()));
    assert_eq!(p.inventory, vec!["火把".to_string(), "sword".to_string()]);
}

#[test]
fn line_is_trimmed_and_lowercased() {
    assert_eq!(normalize("  North \n"), "north");
    assert_eq!(normalize("TAKE Gold Coin"), "take gold coin");
    assert_eq!(normalize("   "), "");
    let w = create_world();
    let mut p = Player::new("Ada", "entrance");
    assert_eq!(step(&w, &mut p, "  N  "), Reply::Moved(Direction::North));
    assert_eq!(p.current_room_id, "hall");
    assert_eq!(step(&w, &mut p, "Take Gold Coin\n"), Reply::Took("gold coin".to_string()));
    assert_eq!(p.inventory, vec!["gold coin".to_string()]);
}

#[test]
fn command_words() {
    assert_eq!(parse_command("exit"), Command::Quit);
    assert_eq!(parse_command("quit"), Command::Quit);
    assert_eq!(parse_command("退出"), Command::Quit);
    assert_eq!(parse_command("help"), Command::Help);
    assert_eq!(parse_command("帮助"), Command::Help);
    assert_eq!(parse_command("inventory"), Command::Inventory);
    assert_eq!(parse_command("背包"), Command::Inventory);
    assert_eq!(parse_command("查看背包"), Command::Inventory);
    assert_eq!(parse_command("拿取 火把"), Command::Take("火把".to_string()));
    assert_eq!(parse_command("down"), Command::Go(Direction::Down));
    assert_eq!(parse_command("上"), Command::Go(Direction::Up));
    assert_eq!(parse_command("dance"), Command::Unknown);
    assert_eq!(parse_command(""), Command::Unknown);
}

#[test]
fn prefix_beats_direction() {
    assert_eq!(parse_command("take north"), Command::Take("north".to_string()));
    assert_eq!(parse_command("take"), Command::Unknown);
}

#[test]
fn bare_prefix_takes_empty_item() {
    assert_eq!(parse_command("take "), Command::Take(String::new()));
    let w = create_world();
    let mut p = Player::new("Ada", "entrance");
    assert_eq!(interpret(&w, &mut p, "get "), Reply::Took(String::new()));
    assert_eq!(p.inventory, vec![String::new()]);
}

#[test]
fn help_and_unknown_change_nothing() {
    let w = create_world();
    let mut p = Player::new("Ada", "hall");
    assert_eq!(step(&w, &mut p, "help"), Reply::Help);
    assert_eq!(step(&w, &mut p, "fly"), Reply::Unknown);
    assert_eq!(step(&w, &mut p, "up"), Reply::NoExit);
    assert_eq!(p.current_room_id, "hall");
    assert!(p.inventory.is_empty());
}

#[test]
fn missing_room_is_reported() {
    let mut w = World::new();
    let mut r = Room::new("a", "A", "");
    r.add_exit(Direction::North, "ghost".to_string());
    w.insert(r);
    let mut p = Player::new("Ada", "a");
    assert_eq!(step(&w, &mut p, "north"), Reply::Moved(Direction::North));
    assert_eq!(p.current_room_id, "ghost");
    assert_eq!(step(&w, &mut p, "south"), Reply::RoomMissing);
    assert_eq!(p.current_room_id, "ghost");
}

#[test]
fn apply_in_room() {
    let mut r = Room::new("a", "A", "");
    r.add_exit(Direction::Up, "b".to_string());
    let mut p = Player::new("Ada", "a");
    assert_eq!(apply(Command::Go(Direction::Up), &r, &mut p), Reply::Moved(Direction::Up));
    assert_eq!(p.current_room_id, "b");
    assert_eq!(apply(Command::Go(Direction::Down), &r, &mut p), Reply::NoExit);
    assert_eq!(p.current_room_id, "b");
    assert_eq!(apply(Command::Take("x".to_string()), &r, &mut p), Reply::Took("x".to_string()));
    assert_eq!(p.inventory, vec!["x".to_string()]);
}

#[test]
fn long_walk_to_the_cellar_and_back() {
    let w = create_world();
    let mut p = Player::new("Ada", "entrance");
    for (line, room) in [
        ("n", "hall"),
        ("西", "dark_passage"),
        ("d", "underground"),
        ("UP", "dark_passage"),
        ("东", "hall"),
        ("s", "entrance"),
    ] {
        assert!(matches!(step(&w, &mut p, line), Reply::Moved(_)));
        assert_eq!(p.current_room_id, room);
    }
}
