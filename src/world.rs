//! The world: every room, each found by its identity.
use vstd::prelude::*;

use crate::room::{Room, RoomView};
use crate::text::same_text;

verus! {

/// The room at `i` of `s` has the identity `id`.
spec fn has_at(s: Seq<Room>, i: int, id: Seq<char>) -> bool {
    0 <= i < s.len() && s[i]@.id == id
}

/// No two rooms of `s` share an identity.
spec fn ids_unique(s: Seq<Room>) -> bool {
    forall|i: int, j: int| 0 <= i < j < s.len() ==> #[trigger] s[i]@.id != #[trigger] s[j]@.id
}

/// The rooms of `s`, each under its identity.
spec fn rooms_map(s: Seq<Room>) -> Map<Seq<char>, RoomView> {
    Map::new(
        |id: Seq<char>| exists|i: int| has_at(s, i, id),
        |id: Seq<char>| s[choose|i: int| has_at(s, i, id)]@,
    )
}

/// Where identities are unique, the room at `i` is the one found under its
/// identity.
proof fn lemma_at(s: Seq<Room>, i: int)
    requires
        ids_unique(s),
        0 <= i < s.len(),
    ensures
        rooms_map(s).contains_key(s[i]@.id),
        rooms_map(s)[s[i]@.id] == s[i]@,
{
    let id = s[i]@.id;
    assert(has_at(s, i, id));
    let j = choose|j: int| has_at(s, j, id);
    assert(j == i);
}

/// The identities of the rooms are the keys of the map they make.
proof fn lemma_keys(s: Seq<Room>)
    requires
        ids_unique(s),
    ensures
        rooms_map(s).len() == s.len(),
{
    let ids = s.map_values(|r: Room| r@.id);
    assert(ids.no_duplicates());
    ids.unique_seq_to_set();
    assert forall|id: Seq<char>| rooms_map(s).contains_key(id) <==> ids.to_set().contains(id) by {
        if rooms_map(s).contains_key(id) {
            let i = choose|i: int| has_at(s, i, id);
            assert(ids[i] == id);
        }
        if ids.to_set().contains(id) {
            let i = choose|i: int| 0 <= i < ids.len() && ids[i] == id;
            assert(has_at(s, i, id));
        }
    }
    assert(rooms_map(s).dom() =~= ids.to_set());
}

/// The rooms of the world, at most one for each identity.
#[derive(Debug)]
pub struct World {
    rooms: Vec<Room>,
}

impl World {
    #[verifier::type_invariant]
    spec fn inv(&self) -> bool {
        ids_unique(self.rooms@)
    }
}

impl View for World {
    type V = Map<Seq<char>, RoomView>;

    closed spec fn view(&self) -> Map<Seq<char>, RoomView> {
        rooms_map(self.rooms@)
    }
}

impl World {
    /// A world with no rooms.
    pub fn new() -> (w: World)
        ensures
            w@ == Map::<Seq<char>, RoomView>::empty(),
    {
        let w = World { rooms: Vec::new() };
        assert(w@ =~= Map::<Seq<char>, RoomView>::empty());
        w
    }

    /// The room whose identity is `id`, if the world has one.
    pub fn get(&self, id: &str) -> (r: Option<&Room>)
        ensures
            r is Some <==> self@.contains_key(id@),
            r matches Some(room) ==> room@ == self@[id@],
    {
        proof {
            use_type_invariant(self);
        }
        let mut i: usize = 0;
        while i < self.rooms.len()
            invariant
                i <= self.rooms.len(),
                ids_unique(self.rooms@),
                forall|j: int| 0 <= j < i ==> self.rooms[j]@.id != id@,
            decreases self.rooms.len() - i,
        {
            if same_text(self.rooms[i].get_id(), id) {
                proof {
                    lemma_at(self.rooms@, i as int);
                }
                return Some(&self.rooms[i]);
            }
            i = i + 1;
        }
        None
    }

    /// Puts `room` in the world under its identity, in place of any room that
    /// had that identity.
    pub fn insert(&mut self, room: Room)
        ensures
            final(self)@ == old(self)@.insert(room@.id, room@),
    {
        proof {
            use_type_invariant(&*self);
        }
        let ghost s0 = self.rooms@;
        let ghost id = room@.id;
        let ghost v = room@;
        let mut i: usize = 0;
        while i < self.rooms.len()
            invariant
                i <= self.rooms.len(),
                self.rooms@ == s0,
                ids_unique(s0),
                id == room@.id,
                forall|j: int| 0 <= j < i ==> s0[j]@.id != id,
            ensures
                i <= s0.len(),
                i < s0.len() ==> s0[i as int]@.id == id,
                forall|j: int| 0 <= j < i ==> s0[j]@.id != id,
            decreases self.rooms.len() - i,
        {
            if same_text(self.rooms[i].get_id(), room.get_id()) {
                break;
            }
            i = i + 1;
        }
        let mut rooms = Vec::new();
        std::mem::swap(&mut rooms, &mut self.rooms);
        if i < rooms.len() {
            rooms.set(i, room);
        } else {
            rooms.push(room);
        }
        let ghost s1 = rooms@;
        proof {
            assert(forall|j: int| 0 <= j < s1.len() && j != i ==> s1[j] == s0[j]);
            assert(s1[i as int]@ == v);
            assert forall|a: int, b: int| 0 <= a < b < s1.len() implies #[trigger] s1[a]@.id
                != #[trigger] s1[b]@.id by {
                if a != i && b != i {
                    assert(s0[a]@.id != s0[b]@.id);
                } else if a == i && i < s0.len() {
                    assert(s0[a]@.id != s0[b]@.id);
                } else if b == i && i < s0.len() {
                    assert(s0[a]@.id != s0[b]@.id);
                }
            }
            let expected = rooms_map(s0).insert(id, v);
            assert forall|k: Seq<char>| rooms_map(s1).contains_key(k) <==> expected.contains_key(k) by {
                if rooms_map(s0).contains_key(k) {
                    let j = choose|j: int| has_at(s0, j, k);
                    assert(has_at(s1, j, k));
                }
                if rooms_map(s1).contains_key(k) && k != id {
                    let j = choose|j: int| has_at(s1, j, k);
                    assert(has_at(s0, j, k));
                }
                if k == id {
                    assert(has_at(s1, i as int, k));
                }
            }
            assert forall|k: Seq<char>| rooms_map(s1).contains_key(k) implies rooms_map(s1)[k]
                == expected[k] by {
                let j = choose|j: int| has_at(s1, j, k);
                lemma_at(s1, j);
                if k != id {
                    lemma_at(s0, j);
                }
            }
            assert(rooms_map(s1) =~= expected);
        }
        self.rooms = rooms;
    }

    /// How many rooms the world holds.
    pub fn len(&self) -> (r: usize)
        ensures
            r == self@.len(),
    {
        proof {
            use_type_invariant(self);
            lemma_keys(self.rooms@);
        }
        self.rooms.len()
    }
}

} // verus!
