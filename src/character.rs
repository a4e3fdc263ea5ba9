//! Playable characters and their two wire codes: a byte and a three-letter string.

use crate::error::{invalid_byte, reports_byte, reports_code, Error};
use crate::text::same_text;
use vstd::prelude::*;

verus! {

/// The playable characters.
#[derive(Clone, Copy, Debug, PartialEq, Eq, Structural, Hash)]
pub enum Character {
    Sol,
    Ky,
    May,
    Axl,
    Chipp,
    Potemkin,
    Faust,
    Millia,
    Zato,
    Ramlethal,
    Leo,
    Nagoriyuki,
    Giovanna,
    Anji,
    Ino,
    Goldlewis,
    Jacko,
    HappyChaos,
}

/// The byte that stands for `c` in replay records.
pub open spec fn byte_of(c: Character) -> u8 {
    match c {
        Character::Sol => 0x00,
        Character::Ky => 0x01,
        Character::May => 0x02,
        Character::Axl => 0x03,
        Character::Chipp => 0x04,
        Character::Potemkin => 0x05,
        Character::Faust => 0x06,
        Character::Millia => 0x07,
        Character::Zato => 0x08,
        Character::Ramlethal => 0x09,
        Character::Leo => 0x0a,
        Character::Nagoriyuki => 0x0b,
        Character::Giovanna => 0x0c,
        Character::Anji => 0x0d,
        Character::Ino => 0x0e,
        Character::Goldlewis => 0x0f,
        Character::Jacko => 0x10,
        Character::HappyChaos => 0x11,
    }
}

/// The three-letter code that stands for `c` in profile records.
pub open spec fn code_of(c: Character) -> Seq<char> {
    match c {
        Character::Sol => seq!['S', 'O', 'L'],
        Character::Ky => seq!['K', 'Y', 'K'],
        Character::May => seq!['M', 'A', 'Y'],
        Character::Axl => seq!['A', 'X', 'L'],
        Character::Chipp => seq!['C', 'H', 'P'],
        Character::Potemkin => seq!['P', 'O', 'T'],
        Character::Faust => seq!['F', 'A', 'U'],
        Character::Millia => seq!['M', 'L', 'L'],
        Character::Zato => seq!['Z', 'A', 'T'],
        Character::Ramlethal => seq!['R', 'A', 'M'],
        Character::Leo => seq!['L', 'E', 'O'],
        Character::Nagoriyuki => seq!['N', 'A', 'G'],
        Character::Giovanna => seq!['G', 'I', 'O'],
        Character::Anji => seq!['A', 'N', 'J'],
        Character::Ino => seq!['I', 'N', 'O'],
        Character::Goldlewis => seq!['G', 'L', 'D'],
        Character::Jacko => seq!['J', 'K', 'O'],
        Character::HappyChaos => seq!['C', 'O', 'S'],
    }
}

/// The name shown to people for `c`.
pub open spec fn name_of(c: Character) -> Seq<char> {
    match c {
        Character::Sol => "Sol Badguy"@,
        Character::Ky => "Ky Kiske"@,
        Character::May => "May"@,
        Character::Axl => "Axl Low"@,
        Character::Chipp => "Chipp Zanuff"@,
        Character::Potemkin => "Potemkin"@,
        Character::Faust => "Faust"@,
        Character::Millia => "Millia Rage"@,
        Character::Zato => "Zato=1"@,
        Character::Ramlethal => "Ramlethal Valentine"@,
        Character::Leo => "Leo Whitefang"@,
        Character::Nagoriyuki => "Nagoriyuki"@,
        Character::Giovanna => "Giovanna"@,
        Character::Anji => "Anji Mito"@,
        Character::Ino => "I-no"@,
        Character::Goldlewis => "Goldlewis Dickinson"@,
        Character::Jacko => "Jack-o"@,
        Character::HappyChaos => "Happy Chaos"@,
    }
}

/// The character that a byte stands for, if any.
pub open spec fn character_of_byte(b: u8) -> Option<Character> {
    if exists|c: Character| byte_of(c) == b {
        Some(choose|c: Character| byte_of(c) == b)
    } else {
        None
    }
}

/// The character that a string code stands for, if any.
pub open spec fn character_of_code(s: Seq<char>) -> Option<Character> {
    if exists|c: Character| code_of(c) == s {
        Some(choose|c: Character| code_of(c) == s)
    } else {
        None
    }
}

/// No two characters share a byte.
pub proof fn lemma_byte_of_injective(a: Character, b: Character)
    ensures
        byte_of(a) == byte_of(b) ==> a == b,
{
}

/// No two characters share a string code.
pub proof fn lemma_code_of_injective(a: Character, b: Character)
    ensures
        code_of(a) == code_of(b) ==> a == b,
{
    if code_of(a) == code_of(b) {
        assert(code_of(a)[0] == code_of(b)[0]);
        assert(code_of(a)[1] == code_of(b)[1]);
        assert(code_of(a)[2] == code_of(b)[2]);
    }
}

/// Decoding the byte of a character gives that character back.
pub proof fn lemma_byte_round_trip(v: Character)
    ensures
        character_of_byte(byte_of(v)) == Some(v),
{
    assert(byte_of(v) == byte_of(v));
    let ch = choose|c: Character| byte_of(c) == byte_of(v);
    lemma_byte_of_injective(ch, v);
}

/// Decoding the string code of a character gives that character back.
pub proof fn lemma_code_round_trip(v: Character)
    ensures
        character_of_code(code_of(v)) == Some(v),
{
    assert(code_of(v) == code_of(v));
    let ch = choose|c: Character| code_of(c) == code_of(v);
    lemma_code_of_injective(ch, v);
}

/// Every byte above `0x11` names no character.
pub proof fn lemma_unknown_byte(b: u8)
    requires
        b > 0x11,
    ensures
        character_of_byte(b) is None,
{
    lemma_byte_range(b);
}

/// The bytes in use are exactly `0x00` to `0x11`.
pub proof fn lemma_byte_range(b: u8)
    ensures
        (exists|c: Character| byte_of(c) == b) <==> b <= 0x11,
{
    if b <= 0x11 {
        let c = if b == 0x00 { Character::Sol } else if b == 0x01 { Character::Ky } else if b == 0x02 { Character::May } else if b == 0x03 { Character::Axl } else if b == 0x04 { Character::Chipp } else if b == 0x05 { Character::Potemkin } else if b == 0x06 { Character::Faust } else if b == 0x07 { Character::Millia } else if b == 0x08 { Character::Zato } else if b == 0x09 { Character::Ramlethal } else if b == 0x0a { Character::Leo } else if b == 0x0b { Character::Nagoriyuki } else if b == 0x0c { Character::Giovanna } else if b == 0x0d { Character::Anji } else if b == 0x0e { Character::Ino } else if b == 0x0f { Character::Goldlewis } else if b == 0x10 { Character::Jacko } else { Character::HappyChaos };
        assert(byte_of(c) == b);
    }
}

impl Character {
    /// Decodes a byte from a replay record.
    pub fn from_u8(c: u8) -> (r: Result<Character, Error>)
        ensures
            r is Ok <==> c <= 0x11,
            r is Ok <==> character_of_byte(c) is Some,
            r matches Ok(ch) ==> character_of_byte(c) == Some(ch) && byte_of(ch) == c,
            r matches Err(e) ==> reports_byte(e, c, " is not a valid character code"@),
    {
        proof {
            lemma_byte_range(c);
        }
        let r = match c {
            0x00 => Ok(Character::Sol),
            0x01 => Ok(Character::Ky),
            0x02 => Ok(Character::May),
            0x03 => Ok(Character::Axl),
            0x04 => Ok(Character::Chipp),
            0x05 => Ok(Character::Potemkin),
            0x06 => Ok(Character::Faust),
            0x07 => Ok(Character::Millia),
            0x08 => Ok(Character::Zato),
            0x09 => Ok(Character::Ramlethal),
            0x0a => Ok(Character::Leo),
            0x0b => Ok(Character::Nagoriyuki),
            0x0c => Ok(Character::Giovanna),
            0x0d => Ok(Character::Anji),
            0x0e => Ok(Character::Ino),
            0x0f => Ok(Character::Goldlewis),
            0x10 => Ok(Character::Jacko),
            0x11 => Ok(Character::HappyChaos),
            _ => Err(invalid_byte(c, " is not a valid character code")),
        };
        proof {
            if let Ok(ch) = r {
                lemma_byte_round_trip(ch);
            }
        }
        r
    }

    /// Encodes the character as the byte of replay records.
    pub fn to_u8(&self) -> (r: u8)
        ensures
            r == byte_of(*self),
    {
        match self {
            Character::Sol => 0x00,
            Character::Ky => 0x01,
            Character::May => 0x02,
            Character::Axl => 0x03,
            Character::Chipp => 0x04,
            Character::Potemkin => 0x05,
            Character::Faust => 0x06,
            Character::Millia => 0x07,
            Character::Zato => 0x08,
            Character::Ramlethal => 0x09,
            Character::Leo => 0x0a,
            Character::Nagoriyuki => 0x0b,
            Character::Giovanna => 0x0c,
            Character::Anji => 0x0d,
            Character::Ino => 0x0e,
            Character::Goldlewis => 0x0f,
            Character::Jacko => 0x10,
            Character::HappyChaos => 0x11,
        }
    }

    /// Encodes the character as the three-letter code of profile records.
    pub fn to_code(&self) -> (r: &'static str)
        ensures
            r@ == code_of(*self),
    {
        match self {
            Character::Sol => {
                proof {
                    reveal_strlit("SOL");
                }
                "SOL"
            },
            Character::Ky => {
                proof {
                    reveal_strlit("KYK");
                }
                "KYK"
            },
            Character::May => {
                proof {
                    reveal_strlit("MAY");
                }
                "MAY"
            },
            Character::Axl => {
                proof {
                    reveal_strlit("AXL");
                }
                "AXL"
            },
            Character::Chipp => {
                proof {
                    reveal_strlit("CHP");
                }
                "CHP"
            },
            Character::Potemkin => {
                proof {
                    reveal_strlit("POT");
                }
                "POT"
            },
            Character::Faust => {
                proof {
                    reveal_strlit("FAU");
                }
                "FAU"
            },
            Character::Millia => {
                proof {
                    reveal_strlit("MLL");
                }
                "MLL"
            },
            Character::Zato => {
                proof {
                    reveal_strlit("ZAT");
                }
                "ZAT"
            },
            Character::Ramlethal => {
                proof {
                    reveal_strlit("RAM");
                }
                "RAM"
            },
            Character::Leo => {
                proof {
                    reveal_strlit("LEO");
                }
                "LEO"
            },
            Character::Nagoriyuki => {
                proof {
                    reveal_strlit("NAG");
                }
                "NAG"
            },
            Character::Giovanna => {
                proof {
                    reveal_strlit("GIO");
                }
                "GIO"
            },
            Character::Anji => {
                proof {
                    reveal_strlit("ANJ");
                }
                "ANJ"
            },
            Character::Ino => {
                proof {
                    reveal_strlit("INO");
                }
                "INO"
            },
            Character::Goldlewis => {
                proof {
                    reveal_strlit("GLD");
                }
                "GLD"
            },
            Character::Jacko => {
                proof {
                    reveal_strlit("JKO");
                }
                "JKO"
            },
            Character::HappyChaos => {
                proof {
                    reveal_strlit("COS");
                }
                "COS"
            },
        }
    }

    /// Decodes a three-letter code of profile records; the match is exact and
    /// case-sensitive.
    pub fn from_code(code: &str) -> (r: Result<Character, Error>)
        ensures
            r is Ok <==> character_of_code(code@) is Some,
            r matches Ok(ch) ==> character_of_code(code@) == Some(ch) && code_of(ch) == code@,
            r matches Err(e) ==> reports_code(e, code@),
    {
        if same_text(code, Character::Sol.to_code()) {
            proof {
                lemma_code_round_trip(Character::Sol);
            }
            return Ok(Character::Sol);
        }
        if same_text(code, Character::Ky.to_code()) {
            proof {
                lemma_code_round_trip(Character::Ky);
            }
            return Ok(Character::Ky);
        }
        if same_text(code, Character::May.to_code()) {
            proof {
                lemma_code_round_trip(Character::May);
            }
            return Ok(Character::May);
        }
        if same_text(code, Character::Axl.to_code()) {
            proof {
                lemma_code_round_trip(Character::Axl);
            }
            return Ok(Character::Axl);
        }
        if same_text(code, Character::Chipp.to_code()) {
            proof {
                lemma_code_round_trip(Character::Chipp);
            }
            return Ok(Character::Chipp);
        }
        if same_text(code, Character::Potemkin.to_code()) {
            proof {
                lemma_code_round_trip(Character::Potemkin);
            }
            return Ok(Character::Potemkin);
        }
        if same_text(code, Character::Faust.to_code()) {
            proof {
                lemma_code_round_trip(Character::Faust);
            }
            return Ok(Character::Faust);
        }
        if same_text(code, Character::Millia.to_code()) {
            proof {
                lemma_code_round_trip(Character::Millia);
            }
            return Ok(Character::Millia);
        }
        if same_text(code, Character::Zato.to_code()) {
            proof {
                lemma_code_round_trip(Character::Zato);
            }
            return Ok(Character::Zato);
        }
        if same_text(code, Character::Ramlethal.to_code()) {
            proof {
                lemma_code_round_trip(Character::Ramlethal);
            }
            return Ok(Character::Ramlethal);
        }
        if same_text(code, Character::Leo.to_code()) {
            proof {
                lemma_code_round_trip(Character::Leo);
            }
            return Ok(Character::Leo);
        }
        if same_text(code, Character::Nagoriyuki.to_code()) {
            proof {
                lemma_code_round_trip(Character::Nagoriyuki);
            }
            return Ok(Character::Nagoriyuki);
        }
        if same_text(code, Character::Giovanna.to_code()) {
            proof {
                lemma_code_round_trip(Character::Giovanna);
            }
            return Ok(Character::Giovanna);
        }
        if same_text(code, Character::Anji.to_code()) {
            proof {
                lemma_code_round_trip(Character::Anji);
            }
            return Ok(Character::Anji);
        }
        if same_text(code, Character::Ino.to_code()) {
            proof {
                lemma_code_round_trip(Character::Ino);
            }
            return Ok(Character::Ino);
        }
        if same_text(code, Character::Goldlewis.to_code()) {
            proof {
                lemma_code_round_trip(Character::Goldlewis);
            }
            return Ok(Character::Goldlewis);
        }
        if same_text(code, Character::Jacko.to_code()) {
            proof {
                lemma_code_round_trip(Character::Jacko);
            }
            return Ok(Character::Jacko);
        }
        if same_text(code, Character::HappyChaos.to_code()) {
            proof {
                lemma_code_round_trip(Character::HappyChaos);
            }
            return Ok(Character::HappyChaos);
        }
        let ghost s = code@;
        assert forall|c: Character| code_of(c) != s by {
            match c {
                Character::Sol => {},
                Character::Ky => {},
                Character::May => {},
                Character::Axl => {},
                Character::Chipp => {},
                Character::Potemkin => {},
                Character::Faust => {},
                Character::Millia => {},
                Character::Zato => {},
                Character::Ramlethal => {},
                Character::Leo => {},
                Character::Nagoriyuki => {},
                Character::Giovanna => {},
                Character::Anji => {},
                Character::Ino => {},
                Character::Goldlewis => {},
                Character::Jacko => {},
                Character::HappyChaos => {},
            }
        }
        Err(Error::InvalidCharacterCode(code.to_owned()))
    }

    /// The name shown to people for the character.
    pub fn display_name(&self) -> (r: &'static str)
        ensures
            r@ == name_of(*self),
    {
        match self {
            Character::Sol => "Sol Badguy",
            Character::Ky => "Ky Kiske",
            Character::May => "May",
            Character::Axl => "Axl Low",
            Character::Chipp => "Chipp Zanuff",
            Character::Potemkin => "Potemkin",
            Character::Faust => "Faust",
            Character::Millia => "Millia Rage",
            Character::Zato => "Zato=1",
            Character::Ramlethal => "Ramlethal Valentine",
            Character::Leo => "Leo Whitefang",
            Character::Nagoriyuki => "Nagoriyuki",
            Character::Giovanna => "Giovanna",
            Character::Anji => "Anji Mito",
            Character::Ino => "I-no",
            Character::Goldlewis => "Goldlewis Dickinson",
            Character::Jacko => "Jack-o",
            Character::HappyChaos => "Happy Chaos",
        }
    }
}

} // verus!
