use ggst_api::{Character, Error};

const ALL: [Character; 18] = [
    Character::Sol,
    Character::Ky,
    Character::May,
    Character::Axl,
    Character::Chipp,
    Character::Potemkin,
    Character::Faust,
    Character::Millia,
    Character::Zato,
    Character::Ramlethal,
    Character::Leo,
    Character::Nagoriyuki,
    Character::Giovanna,
    Character::Anji,
    Character::Ino,
    Character::Goldlewis,
    Character::Jacko,
    Character::HappyChaos,
];

#[test]
fn character_byte_round_trip() {
    for c in ALL {
        assert_eq!(Character::from_u8(c.to_u8()), Ok(c));
    }
}

#[test]
fn character_bytes_are_the_table() {
    for (i, c) in ALL.iter().enumerate() {
        assert_eq!(c.to_u8(), i as u8);
    }
}

#[test]
fn character_code_round_trip() {
    for c in ALL {
        assert_eq!(Character::from_code(c.to_code()), Ok(c));
    }
}

#[test]
fn character_codes_are_the_table() {
    let codes = [
        "SOL",
        "KYK",
        "MAY",
        "AXL",
        "CHP",
        "POT",
        "FAU",
        "MLL",
        "ZAT",
        "RAM",
        "LEO",
        "NAG",
        "GIO",
        "ANJ",
        "INO",
        "GLD",
        "JKO",
        "COS",
    ];
    for (c, code) in ALL.iter().zip(codes.iter()) {
        assert_eq!(c.to_code(), *code);
    }
}

#[test]
fn character_display_names() {
    let names = [
        "Sol Badguy",
        "Ky Kiske",
        "May",
        "Axl Low",
        "Chipp Zanuff",
        "Potemkin",
        "Faust",
        "Millia Rage",
        "Zato=1",
        "Ramlethal Valentine",
        "Leo Whitefang",
        "Nagoriyuki",
        "Giovanna",
        "Anji Mito",
        "I-no",
        "Goldlewis Dickinson",
        "Jack-o",
        "Happy Chaos",
    ];
    for (c, name) in ALL.iter().zip(names.iter()) {
        assert_eq!(c.display_name(), *name);
    }
}

#[test]
fn every_unknown_byte_fails_with_its_hex() {
    for b in 0x12u16..=0xff {
        let b = b as u8;
        let expected = format!("{:x} is not a valid character code", b);
        assert_eq!(Character::from_u8(b), Err(Error::InvalidArguments(expected)));
    }
}

#[test]
fn unknown_codes_fail_with_the_string() {
    for s in ["", "sol", "Sol", "SOLX", "SO", "XYZ", "ZAT ", " ZAT", "KY"] {
        assert_eq!(
            Character::from_code(s),
            Err(Error::InvalidCharacterCode(s.to_string()))
        );
    }
}

#[test]
fn zato_and_happy_chaos_scenario() {
    let z = Character::from_u8(0x08).unwrap();
    assert_eq!(z, Character::Zato);
    assert_eq!(z.to_code(), "ZAT");
    assert_eq!(z.display_name(), "Zato=1");
    let h = Character::from_u8(0x11).unwrap();
    assert_eq!(h, Character::HappyChaos);
    assert_eq!(h.to_code(), "COS");
    assert_eq!(
        Character::from_u8(0x12),
        Err(Error::InvalidArguments("12 is not a valid character code".to_string()))
    );
}

#[test]
fn sol_code_example() {
    assert_eq!(Character::Sol.to_code(), "SOL");
    assert_eq!(Character::from_code("SOL"), Ok(Character::Sol));
}
