//! The six directions an exit can lead in, with their labels and the words
//! that name them.
use vstd::prelude::*;

use crate::text::{lower_of, lowercase, same_text};

verus! {

/// A direction of travel between rooms.
#[derive(Clone, Copy, Debug, PartialEq, Eq, Structural, Hash)]
pub enum Direction {
    North,
    South,
    East,
    West,
    Up,
    Down,
}

/// The label shown for a direction.
pub open spec fn label_of(d: Direction) -> Seq<char> {
    match d {
        Direction::North => "北"@,
        Direction::South => "南"@,
        Direction::East => "东"@,
        Direction::West => "西"@,
        Direction::Up => "上"@,
        Direction::Down => "下"@,
    }
}

/// The direction that a lowercase word names, if any: the English word, its
/// first letter, or the label.
pub open spec fn direction_of(t: Seq<char>) -> Option<Direction> {
    if t == "north"@ || t == "n"@ || t == "北"@ {
        Some(Direction::North)
    } else if t == "south"@ || t == "s"@ || t == "南"@ {
        Some(Direction::South)
    } else if t == "east"@ || t == "e"@ || t == "东"@ {
        Some(Direction::East)
    } else if t == "west"@ || t == "w"@ || t == "西"@ {
        Some(Direction::West)
    } else if t == "up"@ || t == "u"@ || t == "上"@ {
        Some(Direction::Up)
    } else if t == "down"@ || t == "d"@ || t == "下"@ {
        Some(Direction::Down)
    } else {
        None
    }
}

/// The English word for a direction.
pub open spec fn english_of(d: Direction) -> Seq<char> {
    match d {
        Direction::North => "north"@,
        Direction::South => "south"@,
        Direction::East => "east"@,
        Direction::West => "west"@,
        Direction::Up => "up"@,
        Direction::Down => "down"@,
    }
}

/// The one-letter abbreviation of a direction.
pub open spec fn letter_of(d: Direction) -> Seq<char> {
    match d {
        Direction::North => "n"@,
        Direction::South => "s"@,
        Direction::East => "e"@,
        Direction::West => "w"@,
        Direction::Up => "u"@,
        Direction::Down => "d"@,
    }
}

/// The place of a direction in the order in which exits are listed.
pub open spec fn rank(d: Direction) -> int {
    match d {
        Direction::North => 0,
        Direction::South => 1,
        Direction::East => 2,
        Direction::West => 3,
        Direction::Up => 4,
        Direction::Down => 5,
    }
}

impl Direction {
    /// The label shown for this direction.
    pub fn to_chinese(&self) -> (r: &'static str)
        ensures
            r@ == label_of(*self),
    {
        match self {
            Direction::North => "北",
            Direction::South => "南",
            Direction::East => "东",
            Direction::West => "西",
            Direction::Up => "上",
            Direction::Down => "下",
        }
    }

    /// The direction that an already lowercase word names, if any.
    pub fn from_token(t: &str) -> (r: Option<Direction>)
        ensures
            r == direction_of(t@),
    {
        if same_text(t, "north") || same_text(t, "n") || same_text(t, "北") {
            Some(Direction::North)
        } else if same_text(t, "south") || same_text(t, "s") || same_text(t, "南") {
            Some(Direction::South)
        } else if same_text(t, "east") || same_text(t, "e") || same_text(t, "东") {
            Some(Direction::East)
        } else if same_text(t, "west") || same_text(t, "w") || same_text(t, "西") {
            Some(Direction::West)
        } else if same_text(t, "up") || same_text(t, "u") || same_text(t, "上") {
            Some(Direction::Up)
        } else if same_text(t, "down") || same_text(t, "d") || same_text(t, "下") {
            Some(Direction::Down)
        } else {
            None
        }
    }

    /// The direction that `s` names, whatever the case of its letters.
    pub fn from_str(s: &str) -> (r: Option<Direction>)
        ensures
            r == direction_of(lower_of(s@)),
    {
        let t = lowercase(s);
        Direction::from_token(t.as_str())
    }
}

/// Every direction has a label, and no two directions share one.
pub proof fn lemma_labels_nonempty_and_distinct(d: Direction, e: Direction)
    ensures
        label_of(d).len() > 0,
        d != e ==> label_of(d) != label_of(e),
{
    lemma_words_told_apart();
    assert(label_of(d).len() == 1);
    assert(label_of(e).len() == 1);
    if d != e {
        assert(label_of(d)[0] != label_of(e)[0]);
    }
}

/// The first character and the length of each word that names a direction,
/// which tell any two of them apart.
pub(crate) proof fn lemma_words_told_apart()
    ensures
        "north"@.len() == 5 && "north"@[0] == 'n',
        "south"@.len() == 5 && "south"@[0] == 's',
        "east"@.len() == 4 && "east"@[0] == 'e' && "east"@[1] == 'a',
        "west"@.len() == 4 && "west"@[0] == 'w',
        "up"@.len() == 2 && "up"@[0] == 'u',
        "down"@.len() == 4 && "down"@[0] == 'd',
        "n"@.len() == 1 && "n"@[0] == 'n',
        "s"@.len() == 1 && "s"@[0] == 's',
        "e"@.len() == 1 && "e"@[0] == 'e',
        "w"@.len() == 1 && "w"@[0] == 'w',
        "u"@.len() == 1 && "u"@[0] == 'u',
        "d"@.len() == 1 && "d"@[0] == 'd',
        "北"@.len() == 1 && "北"@[0] == '北',
        "南"@.len() == 1 && "南"@[0] == '南',
        "东"@.len() == 1 && "东"@[0] == '东',
        "西"@.len() == 1 && "西"@[0] == '西',
        "上"@.len() == 1 && "上"@[0] == '上',
        "下"@.len() == 1 && "下"@[0] == '下',
{
    reveal_strlit("north");
    reveal_strlit("south");
    reveal_strlit("east");
    reveal_strlit("west");
    reveal_strlit("up");
    reveal_strlit("down");
    reveal_strlit("n");
    reveal_strlit("s");
    reveal_strlit("e");
    reveal_strlit("w");
    reveal_strlit("u");
    reveal_strlit("d");
    reveal_strlit("北");
    reveal_strlit("南");
    reveal_strlit("东");
    reveal_strlit("西");
    reveal_strlit("上");
    reveal_strlit("下");
}

/// A lowercase word names a direction exactly when it is that direction's
/// English word, its one-letter abbreviation or its label; any other word
/// names none.
pub proof fn lemma_direction_words(t: Seq<char>, d: Direction)
    ensures
        direction_of(t) == Some(d) <==> (t == english_of(d) || t == letter_of(d) || t
            == label_of(d)),
        direction_of(t) is None <==> (forall|e: Direction|
            t != english_of(e) && t != letter_of(e) && t != label_of(e)),
{
    lemma_words_told_apart();
    if direction_of(t) is None {
        assert forall|e: Direction|
            t != english_of(e) && t != letter_of(e) && t != label_of(e) by {
            match e {
                Direction::North => {},
                Direction::South => {},
                Direction::East => {},
                Direction::West => {},
                Direction::Up => {},
                Direction::Down => {},
            }
        }
    } else {
        let e = direction_of(t).unwrap();
        assert(t == english_of(e) || t == letter_of(e) || t == label_of(e));
    }
}

} // verus!
