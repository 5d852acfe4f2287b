//! The player: a name, the room they stand in, and what they carry.
use vstd::prelude::*;

use crate::room::texts;

verus! {

/// What a player holds, as plain values.
pub ghost struct PlayerView {
    pub name: Seq<char>,
    pub current_room_id: Seq<char>,
    pub inventory: Seq<Seq<char>>,
}

/// The player.
#[derive(Clone, Debug)]
pub struct Player {
    pub name: String,
    /// The identity of the room the player stands in.
    pub current_room_id: String,
    /// The items carried, in the order in which they were taken.
    pub inventory: Vec<String>,
}

impl View for Player {
    type V = PlayerView;

    open spec fn view(&self) -> PlayerView {
        PlayerView {
            name: self.name@,
            current_room_id: self.current_room_id@,
            inventory: texts(self.inventory@),
        }
    }
}

impl Player {
    /// A player with the given name who stands in `starting_room` and carries
    /// nothing.
    pub fn new(name: &str, starting_room: &str) -> (r: Player)
        ensures
            r@.name == name@,
            r@.current_room_id == starting_room@,
            r@.inventory == Seq::<Seq<char>>::empty(),
    {
        let r = Player {
            name: name.to_owned(),
            current_room_id: starting_room.to_owned(),
            inventory: Vec::new(),
        };
        assert(texts(r.inventory@) =~= Seq::<Seq<char>>::empty());
        r
    }

    /// Adds an item after those already carried.
    pub fn add_item(&mut self, item: String)
        ensures
            final(self)@ == (PlayerView {
                inventory: old(self)@.inventory.push(item@),
                ..old(self)@
            }),
    {
        let ghost before = self.inventory@;
        self.inventory.push(item);
        assert(texts(self.inventory@) =~= texts(before).push(item@));
    }

    /// Puts the player in the room `room_id`.
    pub fn move_to(&mut self, room_id: String)
        ensures
            final(self)@ == (PlayerView { current_room_id: room_id@, ..old(self)@ }),
    {
        self.current_room_id = room_id;
    }
}

} // verus!
