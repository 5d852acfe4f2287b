//! The world the game is played in: five rooms of a cave.
use vstd::prelude::*;

use crate::direction::Direction;
use crate::room::{Room, RoomView};
use crate::world::World;

verus! {

/// A room as it stands once built: the given identity, name, description,
/// items and exits.
pub open spec fn room_of(
    id: Seq<char>,
    name: Seq<char>,
    description: Seq<char>,
    items: Seq<Seq<char>>,
    exits: Map<Direction, Seq<char>>,
) -> RoomView {
    RoomView { id, name, description, items, exits }
}

/// The cave: every room under its identity.
pub open spec fn cave() -> Map<Seq<char>, RoomView> {
    map![
        "entrance"@ => room_of(
            "entrance"@,
            "山洞入口"@,
            "你站在一个黑暗山洞的入口处。洞口阴森而潮湿，但隐约可见洞内闪烁着微弱的光芒。"@,
            seq!["火把"@],
            map![Direction::North => "hall"@],
        ),
        "hall"@ => room_of(
            "hall"@,
            "宽阔的大厅"@,
            "这是一个宽敞的大厅，岩壁上有古老的壁画。地板上散落着一些碎石和尘土。"@,
            seq!["古老的硬币"@],
            map![
                Direction::South => "entrance"@,
                Direction::East => "treasure"@,
                Direction::West => "dark_passage"@,
            ],
        ),
        "treasure"@ => room_of(
            "treasure"@,
            "宝藏室"@,
            "一个金光闪闪的房间，到处都是珍贵的宝物。但是房间中央有一条沉睡的龙！"@,
            seq!["金币"@, "宝石"@],
            map![Direction::West => "hall"@],
        ),
        "dark_passage"@ => room_of(
            "dark_passage"@,
            "黑暗通道"@,
            "这是一条幽深狭窄的通道，几乎看不到任何光线。"@,
            Seq::<Seq<char>>::empty(),
            map![Direction::East => "hall"@, Direction::Down => "underground"@],
        ),
        "underground"@ => room_of(
            "underground"@,
            "地下室"@,
            "一个阴冷的地下空间，墙壁上有水滴不断滑落。"@,
            seq!["生锈的钥匙"@],
            map![Direction::Up => "dark_passage"@],
        ),
    ]
}

/// Every exit of every room of `w` leads to a room of `w`.
pub open spec fn exits_closed(w: Map<Seq<char>, RoomView>) -> bool {
    forall|id: Seq<char>, d: Direction|
        #![trigger w[id].exits[d]]
        w.contains_key(id) && w[id].exits.contains_key(d) ==> w.contains_key(w[id].exits[d])
}

/// The lengths and first characters of the identities of the rooms, which
/// tell any two of them apart.
proof fn lemma_ids_told_apart()
    ensures
        "entrance"@.len() == 8 && "entrance"@[0] == 'e',
        "hall"@.len() == 4,
        "treasure"@.len() == 8 && "treasure"@[0] == 't',
        "dark_passage"@.len() == 12,
        "underground"@.len() == 11,
{
    reveal_strlit("entrance");
    reveal_strlit("hall");
    reveal_strlit("treasure");
    reveal_strlit("dark_passage");
    reveal_strlit("underground");
}

/// Builds the cave.
pub fn create_world() -> (w: World)
    ensures
        w@ == cave(),
{
    let mut world = World::new();

    let mut entrance = Room::new(
        "entrance",
        "山洞入口",
        "你站在一个黑暗山洞的入口处。洞口阴森而潮湿，但隐约可见洞内闪烁着微弱的光芒。",
    );
    entrance.add_item("火把".to_owned());
    entrance.add_exit(Direction::North, "hall".to_owned());

    let mut hall = Room::new(
        "hall",
        "宽阔的大厅",
        "这是一个宽敞的大厅，岩壁上有古老的壁画。地板上散落着一些碎石和尘土。",
    );
    hall.add_item("古老的硬币".to_owned());
    hall.add_exit(Direction::South, "entrance".to_owned());
    hall.add_exit(Direction::East, "treasure".to_owned());
    hall.add_exit(Direction::West, "dark_passage".to_owned());

    let mut treasure = Room::new(
        "treasure",
        "宝藏室",
        "一个金光闪闪的房间，到处都是珍贵的宝物。但是房间中央有一条沉睡的龙！",
    );
    treasure.add_item("金币".to_owned());
    treasure.add_item("宝石".to_owned());
    treasure.add_exit(Direction::West, "hall".to_owned());

    let mut dark_passage = Room::new(
        "dark_passage",
        "黑暗通道",
        "这是一条幽深狭窄的通道，几乎看不到任何光线。",
    );
    dark_passage.add_exit(Direction::East, "hall".to_owned());
    dark_passage.add_exit(Direction::Down, "underground".to_owned());

    let mut underground = Room::new(
        "underground",
        "地下室",
        "一个阴冷的地下空间，墙壁上有水滴不断滑落。",
    );
    underground.add_item("生锈的钥匙".to_owned());
    underground.add_exit(Direction::Up, "dark_passage".to_owned());

    proof {
        lemma_ids_told_apart();
    }
    assert(treasure@.items =~= seq!["金币"@, "宝石"@]);
    world.insert(entrance);
    world.insert(hall);
    world.insert(treasure);
    world.insert(dark_passage);
    world.insert(underground);
    assert(world@ =~= cave());
    world
}

/// The cave has exactly five rooms, and every exit of every room leads to one
/// of them.
pub proof fn lemma_cave_closed()
    ensures
        cave().len() == 5,
        exits_closed(cave()),
{
    lemma_ids_told_apart();
    let w = cave();
    assert(w.dom() =~= set!["entrance"@, "hall"@, "treasure"@, "dark_passage"@, "underground"@]);
    assert(w.dom().len() == 5);
}

} // verus!
