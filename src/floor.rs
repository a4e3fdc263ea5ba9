//! Ranked floors: a byte code for replay records and a hex text for queries.

use crate::error::{invalid_byte, reports_byte, Error};
use vstd::prelude::*;

verus! {

/// The ranked floors, lowest first, then the top floor.
#[derive(Clone, Copy, Debug, PartialEq, Eq, Structural, Hash)]
pub enum Floor {
    F1,
    F2,
    F3,
    F4,
    F5,
    F6,
    F7,
    F8,
    F9,
    F10,
    Celestial,
}

/// The byte that stands for `f` in replay records.
pub open spec fn floor_byte(f: Floor) -> u8 {
    match f {
        Floor::F1 => 0x00,
        Floor::F2 => 0x01,
        Floor::F3 => 0x02,
        Floor::F4 => 0x03,
        Floor::F5 => 0x04,
        Floor::F6 => 0x05,
        Floor::F7 => 0x06,
        Floor::F8 => 0x07,
        Floor::F9 => 0x08,
        Floor::F10 => 0x09,
        Floor::Celestial => 0x63,
    }
}

/// The two hex digits that stand for `f` in queries. For `F10` this is `0a`,
/// not the byte `0x09` that replay records use.
pub open spec fn floor_hex(f: Floor) -> Seq<char> {
    match f {
        Floor::F1 => seq!['0', '0'],
        Floor::F2 => seq!['0', '1'],
        Floor::F3 => seq!['0', '2'],
        Floor::F4 => seq!['0', '3'],
        Floor::F5 => seq!['0', '4'],
        Floor::F6 => seq!['0', '5'],
        Floor::F7 => seq!['0', '6'],
        Floor::F8 => seq!['0', '7'],
        Floor::F9 => seq!['0', '8'],
        Floor::F10 => seq!['0', 'a'],
        Floor::Celestial => seq!['6', '3'],
    }
}

/// The label of `f` in text meant for people: its variant name.
pub open spec fn floor_label(f: Floor) -> Seq<char> {
    match f {
        Floor::F1 => "F1"@,
        Floor::F2 => "F2"@,
        Floor::F3 => "F3"@,
        Floor::F4 => "F4"@,
        Floor::F5 => "F5"@,
        Floor::F6 => "F6"@,
        Floor::F7 => "F7"@,
        Floor::F8 => "F8"@,
        Floor::F9 => "F9"@,
        Floor::F10 => "F10"@,
        Floor::Celestial => "Celestial"@,
    }
}

/// The floor that a byte stands for, if any.
pub open spec fn floor_of_byte(b: u8) -> Option<Floor> {
    if exists|f: Floor| floor_byte(f) == b {
        Some(choose|f: Floor| floor_byte(f) == b)
    } else {
        None
    }
}

/// The bytes in use are `0x00` to `0x09` and `0x63`.
pub open spec fn is_floor_byte(b: u8) -> bool {
    b <= 0x09 || b == 0x63
}

/// No two floors share a byte.
pub proof fn lemma_floor_byte_injective(a: Floor, b: Floor)
    ensures
        floor_byte(a) == floor_byte(b) ==> a == b,
{
}

/// Decoding the byte of a floor gives that floor back.
pub proof fn lemma_floor_round_trip(v: Floor)
    ensures
        floor_of_byte(floor_byte(v)) == Some(v),
{
    assert(floor_byte(v) == floor_byte(v));
    let f = choose|f: Floor| floor_byte(f) == floor_byte(v);
    lemma_floor_byte_injective(f, v);
}

/// A byte names a floor exactly when `is_floor_byte` holds of it.
pub proof fn lemma_floor_byte_range(b: u8)
    ensures
        floor_of_byte(b) is Some <==> is_floor_byte(b),
{
    if is_floor_byte(b) {
        let f = if b == 0x00 { Floor::F1 } else if b == 0x01 { Floor::F2 } else if b == 0x02 { Floor::F3 } else if b == 0x03 { Floor::F4 } else if b == 0x04 { Floor::F5 } else if b == 0x05 { Floor::F6 } else if b == 0x06 { Floor::F7 } else if b == 0x07 { Floor::F8 } else if b == 0x08 { Floor::F9 } else if b == 0x09 { Floor::F10 } else { Floor::Celestial };
        assert(floor_byte(f) == b);
    }
}

impl Floor {
    /// Decodes a byte from a replay record.
    pub fn from_u8(c: u8) -> (r: Result<Floor, Error>)
        ensures
            r is Ok <==> is_floor_byte(c),
            r is Ok <==> floor_of_byte(c) is Some,
            r matches Ok(f) ==> floor_of_byte(c) == Some(f) && floor_byte(f) == c,
            r matches Err(e) ==> reports_byte(e, c, " is not a valid floor code"@),
    {
        proof {
            lemma_floor_byte_range(c);
        }
        let r = match c {
            0x00 => Ok(Floor::F1),
            0x01 => Ok(Floor::F2),
            0x02 => Ok(Floor::F3),
            0x03 => Ok(Floor::F4),
            0x04 => Ok(Floor::F5),
            0x05 => Ok(Floor::F6),
            0x06 => Ok(Floor::F7),
            0x07 => Ok(Floor::F8),
            0x08 => Ok(Floor::F9),
            0x09 => Ok(Floor::F10),
            0x63 => Ok(Floor::Celestial),
            _ => Err(invalid_byte(c, " is not a valid floor code")),
        };
        proof {
            if let Ok(f) = r {
                lemma_floor_round_trip(f);
            }
        }
        r
    }

    /// Encodes the floor as the byte of replay records.
    pub fn to_u8(&self) -> (r: u8)
        ensures
            r == floor_byte(*self),
    {
        match self {
            Floor::F1 => 0x00,
            Floor::F2 => 0x01,
            Floor::F3 => 0x02,
            Floor::F4 => 0x03,
            Floor::F5 => 0x04,
            Floor::F6 => 0x05,
            Floor::F7 => 0x06,
            Floor::F8 => 0x07,
            Floor::F9 => 0x08,
            Floor::F10 => 0x09,
            Floor::Celestial => 0x63,
        }
    }

    /// The label of the floor in text meant for people.
    pub fn label(&self) -> (r: &'static str)
        ensures
            r@ == floor_label(*self),
    {
        match self {
            Floor::F1 => "F1",
            Floor::F2 => "F2",
            Floor::F3 => "F3",
            Floor::F4 => "F4",
            Floor::F5 => "F5",
            Floor::F6 => "F6",
            Floor::F7 => "F7",
            Floor::F8 => "F8",
            Floor::F9 => "F9",
            Floor::F10 => "F10",
            Floor::Celestial => "Celestial",
        }
    }

    /// The two lowercase hex digits that stand for the floor in queries.
    pub fn to_hex(&self) -> (r: String)
        ensures
            r@ == floor_hex(*self),
    {
        match self {
            Floor::F1 => {
                proof {
                    reveal_strlit("00");
                }
                String::from_str("00")
            },
            Floor::F2 => {
                proof {
                    reveal_strlit("01");
                }
                String::from_str("01")
            },
            Floor::F3 => {
                proof {
                    reveal_strlit("02");
                }
                String::from_str("02")
            },
            Floor::F4 => {
                proof {
                    reveal_strlit("03");
                }
                String::from_str("03")
            },
            Floor::F5 => {
                proof {
                    reveal_strlit("04");
                }
                String::from_str("04")
            },
            Floor::F6 => {
                proof {
                    reveal_strlit("05");
                }
                String::from_str("05")
            },
            Floor::F7 => {
                proof {
                    reveal_strlit("06");
                }
                String::from_str("06")
            },
            Floor::F8 => {
                proof {
                    reveal_strlit("07");
                }
                String::from_str("07")
            },
            Floor::F9 => {
                proof {
                    reveal_strlit("08");
                }
                String::from_str("08")
            },
            Floor::F10 => {
                proof {
                    reveal_strlit("0a");
                }
                String::from_str("0a")
            },
            Floor::Celestial => {
                proof {
                    reveal_strlit("63");
                }
                String::from_str("63")
            },
        }
    }
}

} // verus!
