use text_adventure::direction::Direction;

const ALL: [Direction; 6] = [
    Direction::North,
    Direction::South,
    Direction::East,
    Direction::West,
    Direction::Up,
    Direction::Down,
];

#[test]
fn english_words_parse() {
    assert_eq!(Direction::from_str("north"), Some(Direction::North));
    assert_eq!(Direction::from_str("south"), Some(Direction::South));
    assert_eq!(Direction::from_str("east"), Some(Direction::East));
    assert_eq!(Direction::from_str("west"), Some(Direction::West));
    assert_eq!(Direction::from_str("up"), Some(Direction::Up));
    assert_eq!(Direction::from_str("down"), Some(Direction::Down));
}

#[test]
fn single_letters_parse() {
    assert_eq!(Direction::from_str("n"), Some(Direction::North));
    assert_eq!(Direction::from_str("s"), Some(Direction::South));
    assert_eq!(Direction::from_str("e"), Some(Direction::East));
    assert_eq!(Direction::from_str("w"), Some(Direction::West));
    assert_eq!(Direction::from_str("u"), Some(Direction::Up));
    assert_eq!(Direction::from_str("d"), Some(Direction::Down));
}

#[test]
fn labels_parse() {
    assert_eq!(Direction::from_str("北"), Some(Direction::North));
    assert_eq!(Direction::from_str("南"), Some(Direction::South));
    assert_eq!(Direction::from_str("东"), Some(Direction::East));
    assert_eq!(Direction::from_str("西"), Some(Direction::West));
    assert_eq!(Direction::from_str("上"), Some(Direction::Up));
    assert_eq!(Direction::from_str("下"), Some(Direction::Down));
}

#[test]
fn parsing_ignores_case() {
    assert_eq!(Direction::from_str("NORTH"), Some(Direction::North));
    assert_eq!(Direction::from_str("South"), Some(Direction::South));
    assert_eq!(Direction::from_str("E"), Some(Direction::East));
    assert_eq!(Direction::from_str("wEsT"), Some(Direction::West));
    assert_eq!(Direction::from_str("UP"), Some(Direction::Up));
    assert_eq!(Direction::from_str("D"), Some(Direction::Down));
}

#[test]
fn other_words_do_not_parse() {
    assert_eq!(Direction::from_str(""), None);
    assert_eq!(Direction::from_str("northward"), None);
    assert_eq!(Direction::from_str(" north"), None);
    assert_eq!(Direction::from_str("x"), None);
    assert_eq!(Direction::from_str("北方"), None);
    assert_eq!(Direction::from_str("left"), None);
}

#[test]
fn token_parse_is_exact() {
    assert_eq!(Direction::from_token("north"), Some(Direction::North));
    assert_eq!(Direction::from_token("down"), Some(Direction::Down));
    assert_eq!(Direction::from_token("NORTH"), None);
}

#[test]
fn labels_are_nonempty_and_distinct() {
    for (i, a) in ALL.iter().enumerate() {
        assert!(!a.to_chinese().is_empty());
        for b in ALL.iter().skip(i + 1) {
            assert_ne!(a.to_chinese(), b.to_chinese());
        }
    }
    assert_eq!(Direction::North.to_chinese(), "北");
    assert_eq!(Direction::Down.to_chinese(), "下");
}

#[test]
fn label_parses_back() {
    for d in ALL.iter() {
        assert_eq!(Direction::from_str(d.to_chinese()), Some(*d));
    }
}
