//! A room of the world: its identity, what it shows, the items in it and the
//! exits that lead out of it.
use vstd::prelude::*;

use crate::direction::{rank, Direction};

verus! {

/// What a room holds, as plain values.
pub ghost struct RoomView {
    pub id: Seq<char>,
    pub name: Seq<char>,
    pub description: Seq<char>,
    pub items: Seq<Seq<char>>,
    pub exits: Map<Direction, Seq<char>>,
}

/// The characters of each string of a sequence.
pub open spec fn texts(s: Seq<String>) -> Seq<Seq<char>> {
    s.map_values(|x: String| x@)
}

/// The destination of one exit for each direction; at most one per direction.
#[derive(Clone, Debug)]
struct Exits {
    north: Option<String>,
    south: Option<String>,
    east: Option<String>,
    west: Option<String>,
    up: Option<String>,
    down: Option<String>,
}

impl Exits {
    spec fn slot(&self, d: Direction) -> Option<String> {
        match d {
            Direction::North => self.north,
            Direction::South => self.south,
            Direction::East => self.east,
            Direction::West => self.west,
            Direction::Up => self.up,
            Direction::Down => self.down,
        }
    }

    spec fn to_map(&self) -> Map<Direction, Seq<char>> {
        Map::new(|d: Direction| self.slot(d) is Some, |d: Direction| self.slot(d).unwrap()@)
    }

    fn lookup(&self, d: &Direction) -> (r: &Option<String>)
        ensures
            *r == self.slot(*d),
    {
        match d {
            Direction::North => &self.north,
            Direction::South => &self.south,
            Direction::East => &self.east,
            Direction::West => &self.west,
            Direction::Up => &self.up,
            Direction::Down => &self.down,
        }
    }

    fn set(&mut self, d: Direction, target: String)
        ensures
            final(self).slot(d) == Some(target),
            forall|e: Direction| e != d ==> final(self).slot(e) == old(self).slot(e),
    {
        match d {
            Direction::North => self.north = Some(target),
            Direction::South => self.south = Some(target),
            Direction::East => self.east = Some(target),
            Direction::West => self.west = Some(target),
            Direction::Up => self.up = Some(target),
            Direction::Down => self.down = Some(target),
        }
    }
}

/// A room of the world.
#[derive(Clone, Debug)]
pub struct Room {
    id: String,
    name: String,
    description: String,
    items: Vec<String>,
    exits: Exits,
}

impl View for Room {
    type V = RoomView;

    closed spec fn view(&self) -> RoomView {
        RoomView {
            id: self.id@,
            name: self.name@,
            description: self.description@,
            items: texts(self.items@),
            exits: self.exits.to_map(),
        }
    }
}

impl Room {
    /// A room with the given identity, name and description, with no items and
    /// no exits.
    pub fn new(id: &str, name: &str, description: &str) -> (r: Room)
        ensures
            r@.id == id@,
            r@.name == name@,
            r@.description == description@,
            r@.items == Seq::<Seq<char>>::empty(),
            r@.exits == Map::<Direction, Seq<char>>::empty(),
    {
        let r = Room {
            id: id.to_owned(),
            name: name.to_owned(),
            description: description.to_owned(),
            items: Vec::new(),
            exits: Exits { north: None, south: None, east: None, west: None, up: None, down: None },
        };
        assert(texts(r.items@) =~= Seq::<Seq<char>>::empty());
        assert(r.exits.to_map() =~= Map::<Direction, Seq<char>>::empty());
        r
    }

    pub fn get_name(&self) -> (r: &str)
        ensures
            r@ == self@.name,
    {
        self.name.as_str()
    }

    pub fn get_description(&self) -> (r: &str)
        ensures
            r@ == self@.description,
    {
        self.description.as_str()
    }

    pub fn get_id(&self) -> (r: &str)
        ensures
            r@ == self@.id,
    {
        self.id.as_str()
    }

    /// The items in the room, in the order in which they were added.
    pub fn get_items(&self) -> (r: &Vec<String>)
        ensures
            texts(r@) == self@.items,
    {
        &self.items
    }

    /// Adds an item after those already in the room.
    pub fn add_item(&mut self, item: String)
        ensures
            final(self)@ == (RoomView { items: old(self)@.items.push(item@), ..old(self)@ }),
    {
        let ghost before = self.items@;
        self.items.push(item);
        assert(texts(self.items@) =~= texts(before).push(item@));
    }

    /// Makes the exit in `direction` lead to `room_id`, in place of any exit
    /// that direction had.
    pub fn add_exit(&mut self, direction: Direction, room_id: String)
        ensures
            final(self)@ == (RoomView {
                exits: old(self)@.exits.insert(direction, room_id@),
                ..old(self)@
            }),
    {
        let ghost before = self.exits;
        self.exits.set(direction, room_id);
        assert(self.exits.to_map() =~= before.to_map().insert(direction, room_id@));
    }

    /// The room that the exit in `direction` leads to, if there is one.
    pub fn get_exit(&self, direction: &Direction) -> (r: Option<&String>)
        ensures
            r is Some <==> self@.exits.contains_key(*direction),
            r matches Some(target) ==> target@ == self@.exits[*direction],
    {
        match self.exits.lookup(direction) {
            Some(target) => Some(target),
            None => None,
        }
    }

    /// Every exit of the room with where it leads, in listing order.
    pub fn get_exits(&self) -> (r: Vec<(Direction, String)>)
        ensures
            forall|i: int|
                0 <= i < r@.len() ==> self@.exits.contains_key(#[trigger] r@[i].0)
                    && r@[i].1@ == self@.exits[r@[i].0],
            forall|i: int, j: int| 0 <= i < j < r@.len() ==> rank(r@[i].0) < rank(r@[j].0),
            forall|d: Direction|
                self@.exits.contains_key(d) ==> exists|i: int| 0 <= i < r@.len() && r@[i].0 == d,
    {
        let order = [
            Direction::North,
            Direction::South,
            Direction::East,
            Direction::West,
            Direction::Up,
            Direction::Down,
        ];
        let mut r: Vec<(Direction, String)> = Vec::new();
        let mut k: usize = 0;
        while k < 6
            invariant
                k <= 6,
                forall|m: int| 0 <= m < 6 ==> rank(#[trigger] order@[m]) == m,
                forall|i: int|
                    0 <= i < r@.len() ==> self@.exits.contains_key(#[trigger] r@[i].0)
                        && r@[i].1@ == self@.exits[r@[i].0] && rank(r@[i].0) < k,
                forall|i: int, j: int| 0 <= i < j < r@.len() ==> rank(r@[i].0) < rank(r@[j].0),
                forall|d: Direction|
                    self@.exits.contains_key(d) && rank(d) < k ==> exists|i: int|
                        0 <= i < r@.len() && r@[i].0 == d,
            decreases 6 - k,
        {
            let d = order[k];
            let ghost before = r@;
            proof {
                assert forall|e: Direction| rank(e) == k implies e == d by {
                    match e {
                        Direction::North => {},
                        Direction::South => {},
                        Direction::East => {},
                        Direction::West => {},
                        Direction::Up => {},
                        Direction::Down => {},
                    }
                }
            }
            match self.exits.lookup(&d) {
                Some(target) => {
                    r.push((d, target.clone()));
                },
                None => {},
            }
            assert forall|e: Direction|
                self@.exits.contains_key(e) && rank(e) < k + 1 implies exists|i: int|
                    0 <= i < r@.len() && r@[i].0 == e by {
                if rank(e) < k {
                    let i = choose|i: int| 0 <= i < before.len() && before[i].0 == e;
                    assert(r@[i] == before[i]);
                } else {
                    assert(r@[r@.len() - 1].0 == e);
                }
            }
            k = k + 1;
        }
        r
    }
}

} // verus!
