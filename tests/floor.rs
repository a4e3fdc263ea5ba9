use ggst_api::{Error, Floor};

const ALL: [Floor; 11] = [
    Floor::F1,
    Floor::F2,
    Floor::F3,
    Floor::F4,
    Floor::F5,
    Floor::F6,
    Floor::F7,
    Floor::F8,
    Floor::F9,
    Floor::F10,
    Floor::Celestial,
];

#[test]
fn floor_byte_round_trip() {
    for f in ALL {
        assert_eq!(Floor::from_u8(f.to_u8()), Ok(f));
    }
}

#[test]
fn floor_bytes() {
    assert_eq!(Floor::F1.to_u8(), 0x00);
    assert_eq!(Floor::F9.to_u8(), 0x08);
    assert_eq!(Floor::F10.to_u8(), 0x09);
    assert_eq!(Floor::Celestial.to_u8(), 0x63);
}

#[test]
fn floor_hex_table() {
    let hex = ["00", "01", "02", "03", "04", "05", "06", "07", "08", "0a", "63"];
    for (f, h) in ALL.iter().zip(hex.iter()) {
        assert_eq!(f.to_hex(), *h);
    }
}

#[test]
fn floor_hex_is_stable() {
    for f in ALL {
        assert_eq!(f.to_hex(), f.to_hex());
    }
    assert_eq!(Floor::F10.to_hex(), "0a");
    assert_eq!(Floor::Celestial.to_hex(), "63");
    assert_eq!(Floor::F1.to_hex(), "00");
}

#[test]
fn celestial_decodes_and_0a_does_not() {
    assert_eq!(Floor::from_u8(0x63), Ok(Floor::Celestial));
    assert_eq!(
        Floor::from_u8(0x0a),
        Err(Error::InvalidArguments("a is not a valid floor code".to_string()))
    );
}

#[test]
fn unknown_floor_bytes_fail() {
    for b in 0u16..=0xff {
        let b = b as u8;
        if b <= 0x09 || b == 0x63 {
            assert!(Floor::from_u8(b).is_ok());
        } else {
            let expected = format!("{:x} is not a valid floor code", b);
            assert_eq!(Floor::from_u8(b), Err(Error::InvalidArguments(expected)));
        }
    }
}

#[test]
fn floor_labels() {
    assert_eq!(Floor::F1.label(), "F1");
    assert_eq!(Floor::F10.label(), "F10");
    assert_eq!(Floor::Celestial.label(), "Celestial");
}
