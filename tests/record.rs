use ggst_api::{Character, Floor, Match, Player, Timestamp, Winner};
use std::collections::hash_map::DefaultHasher;
use std::hash::{Hash, Hasher};

fn hash_of<T: Hash>(v: &T) -> u64 {
    let mut h = DefaultHasher::new();
    v.hash(&mut h);
    h.finish()
}

fn player(id: &str, name: &str, c: Character) -> Player {
    Player::new(id.to_string(), name.to_string(), c)
}

#[test]
fn winner_follows_the_flag() {
    let m = Match::new(
        Floor::F5,
        Timestamp::from_nanos(0),
        player("1", "a", Character::Sol),
        player("2", "b", Character::Ky),
        Winner::Player1,
    );
    assert_eq!(m.winner(), &player("1", "a", Character::Sol));
    assert_eq!(m.loser(), &player("2", "b", Character::Ky));
}

#[test]
fn swapping_the_flag_swaps_winner_and_loser() {
    let m = Match::new(
        Floor::F5,
        Timestamp::from_nanos(0),
        player("1", "a", Character::Sol),
        player("2", "b", Character::Ky),
        Winner::Player2,
    );
    assert_eq!(m.winner(), &player("2", "b", Character::Ky));
    assert_eq!(m.loser(), &player("1", "a", Character::Sol));
}

#[test]
fn equal_players_hash_alike() {
    let a = player("42", "Daru", Character::Zato);
    let b = player("42", "Daru", Character::Zato);
    assert_eq!(a, b);
    assert_eq!(hash_of(&a), hash_of(&b));
}

#[test]
fn players_differ_in_any_field() {
    let a = player("42", "Daru", Character::Zato);
    assert_ne!(a, player("43", "Daru", Character::Zato));
    assert_ne!(a, player("42", "Daru2", Character::Zato));
    assert_ne!(a, player("42", "Daru", Character::Sol));
}

#[test]
fn player_accessors() {
    let a = player("42", "Daru", Character::Zato);
    assert_eq!(a.id(), "42");
    assert_eq!(a.name(), "Daru");
    assert_eq!(a.character(), Character::Zato);
    assert_eq!(a.to_text(), "Daru(42) as Zato=1");
}

#[test]
fn timestamp_text() {
    assert_eq!(Timestamp::from_nanos(0).to_text(), "1970-01-01 00:00:00 UTC");
    assert_eq!(
        Timestamp::from_nanos(1_632_000_000_000_000_000).to_text(),
        "2021-09-18 21:20:00 UTC"
    );
    assert_eq!(Timestamp::from_nanos(5).nanos(), 5);
}

#[test]
fn match_text_layout() {
    let m = Match::new(
        Floor::Celestial,
        Timestamp::from_nanos(0),
        player("1", "a", Character::Sol),
        player("2", "b", Character::HappyChaos),
        Winner::Player2,
    );
    assert_eq!(
        m.to_text(),
        "Match 1970-01-01 00:00:00 UTC on floor Celestial {\n  Winner: b(2) as Happy Chaos\n  Loser: a(1) as Sol Badguy\n}"
    );
}

#[test]
fn match_equality_and_accessors() {
    let make = |w| {
        Match::new(
            Floor::F10,
            Timestamp::from_nanos(7),
            player("1", "a", Character::Sol),
            player("2", "b", Character::Ky),
            w,
        )
    };
    let m = make(Winner::Player1);
    assert_eq!(m, make(Winner::Player1));
    assert_ne!(m, make(Winner::Player2));
    assert_eq!(hash_of(&m), hash_of(&make(Winner::Player1)));
    assert_eq!(m.floor(), Floor::F10);
    assert_eq!(m.timestamp(), Timestamp::from_nanos(7));
    assert_eq!(m.outcome(), Winner::Player1);
}
