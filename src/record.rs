//! Players and matches: immutable records whose winner and loser are derived
//! from a single outcome flag.

use crate::character::{name_of, Character};
use crate::floor::{floor_label, Floor};
use vstd::prelude::*;
use vstd::std_specs::cmp::PartialEqSpec;

verus! {

/// A point in time, as non-leap nanoseconds since 1970-01-01 00:00:00 UTC.
#[derive(Clone, Copy, Debug, PartialEq, Eq, Structural, Hash)]
pub struct Timestamp {
    nanos: i64,
}

impl Timestamp {
    /// The nanoseconds since the epoch that this timestamp holds.
    pub closed spec fn spec_nanos(&self) -> i64 {
        self.nanos
    }

    /// The timestamp `nanos` nanoseconds after the epoch (before it if negative).
    pub fn from_nanos(nanos: i64) -> (r: Timestamp)
        ensures
            r.spec_nanos() == nanos,
    {
        Timestamp { nanos }
    }

    /// The nanoseconds since the epoch.
    pub fn nanos(&self) -> (r: i64)
        ensures
            r == self.spec_nanos(),
    {
        self.nanos
    }
}

/// The text that chrono's `Display` gives the UTC date and time `nanos`
/// nanoseconds after the epoch.
pub uninterp spec fn utc_text(nanos: i64) -> Seq<char>;

/// Relies on chrono's `DateTime::<Utc>::from_timestamp_nanos`, which is total on
/// `i64`, and on its `Display` impl, for the text of a point in time.
#[verifier::external_body]
fn format_utc(nanos: i64) -> (r: String)
    ensures
        r@ == utc_text(nanos),
{
    chrono::DateTime::<chrono::Utc>::from_timestamp_nanos(nanos).to_string()
}

impl Timestamp {
    /// The date and time in UTC, as text.
    pub fn to_text(&self) -> (r: String)
        ensures
            r@ == utc_text(self.spec_nanos()),
    {
        format_utc(self.nanos)
    }
}

/// One of the two players of a match, with the character played.
#[derive(Debug, Eq, Hash)]
pub struct Player {
    id: String,
    name: String,
    character: Character,
}

impl Player {
    /// The account id.
    pub closed spec fn spec_id(&self) -> Seq<char> {
        self.id@
    }

    /// The display name.
    pub closed spec fn spec_name(&self) -> Seq<char> {
        self.name@
    }

    /// The character played.
    pub closed spec fn spec_character(&self) -> Character {
        self.character
    }

    /// A player with the given account id, display name and character.
    pub fn new(id: String, name: String, character: Character) -> (r: Player)
        ensures
            r.spec_id() == id@,
            r.spec_name() == name@,
            r.spec_character() == character,
    {
        Player { id, name, character }
    }

    /// The account id.
    pub fn id(&self) -> (r: &str)
        ensures
            r@ == self.spec_id(),
    {
        self.id.as_str()
    }

    /// The display name.
    pub fn name(&self) -> (r: &str)
        ensures
            r@ == self.spec_name(),
    {
        self.name.as_str()
    }

    /// The character played.
    pub fn character(&self) -> (r: Character)
        ensures
            r == self.spec_character(),
    {
        self.character
    }
}

/// `name(id) as Character Name`.
pub open spec fn player_text(p: Player) -> Seq<char> {
    p.spec_name() + "("@ + p.spec_id() + ") as "@ + name_of(p.spec_character())
}

impl Player {
    /// The player as `name(id) as Character Name`.
    pub fn to_text(&self) -> (r: String)
        ensures
            r@ == player_text(*self),
    {
        let mut r = String::new();
        r.append(self.name.as_str());
        r.append("(");
        r.append(self.id.as_str());
        r.append(") as ");
        r.append(self.character.display_name());
        proof {
            assert(r@ =~= player_text(*self));
        }
        r
    }
}

/// Whether two players agree on id, name and character.
pub open spec fn same_player(a: &Player, b: &Player) -> bool {
    a.spec_id() == b.spec_id() && a.spec_name() == b.spec_name() && a.spec_character()
        == b.spec_character()
}

impl PartialEq for Player {
    fn eq(&self, other: &Player) -> (r: bool)
        ensures
            r == same_player(self, other),
    {
        self.id == other.id && self.name == other.name && self.character == other.character
    }
}

impl vstd::std_specs::cmp::PartialEqSpecImpl for Player {
    open spec fn obeys_eq_spec() -> bool {
        true
    }

    open spec fn eq_spec(&self, other: &Player) -> bool {
        same_player(self, other)
    }
}

/// Two players are equal exactly when id, name and character all agree, so a
/// change to any one of the three makes them unequal.
pub proof fn lemma_player_eq(a: Player, b: Player)
    ensures
        a.eq_spec(&b) <==> (a.spec_id() == b.spec_id() && a.spec_name() == b.spec_name()
            && a.spec_character() == b.spec_character()),
{
}

/// Which of the two positions of a match won it.
#[derive(Clone, Copy, Debug, PartialEq, Eq, Structural, Hash)]
pub enum Winner {
    Player1,
    Player2,
}

/// One completed match: floor, time, the two players in order, and which won.
#[derive(Debug, Eq, Hash)]
pub struct Match {
    floor: Floor,
    timestamp: Timestamp,
    players: (Player, Player),
    winner: Winner,
}

impl Match {
    /// The floor it was played on.
    pub closed spec fn spec_floor(&self) -> Floor {
        self.floor
    }

    /// When it was played.
    pub closed spec fn spec_timestamp(&self) -> Timestamp {
        self.timestamp
    }

    /// The player in the first position.
    pub closed spec fn spec_player1(&self) -> Player {
        self.players.0
    }

    /// The player in the second position.
    pub closed spec fn spec_player2(&self) -> Player {
        self.players.1
    }

    /// The outcome flag.
    pub closed spec fn spec_outcome(&self) -> Winner {
        self.winner
    }

    /// The player that the outcome flag designates.
    pub open spec fn spec_winner(&self) -> Player {
        match self.spec_outcome() {
            Winner::Player1 => self.spec_player1(),
            Winner::Player2 => self.spec_player2(),
        }
    }

    /// The player that the outcome flag does not designate.
    pub open spec fn spec_loser(&self) -> Player {
        match self.spec_outcome() {
            Winner::Player1 => self.spec_player2(),
            Winner::Player2 => self.spec_player1(),
        }
    }

    /// A match on `floor` at `timestamp` between `player1` and `player2`, in
    /// that order, won by the position that `winner` names.
    pub fn new(
        floor: Floor,
        timestamp: Timestamp,
        player1: Player,
        player2: Player,
        winner: Winner,
    ) -> (r: Match)
        ensures
            r.spec_floor() == floor,
            r.spec_timestamp() == timestamp,
            r.spec_player1() == player1,
            r.spec_player2() == player2,
            r.spec_outcome() == winner,
    {
        Match { floor, timestamp, players: (player1, player2), winner }
    }

    /// The player who won.
    pub fn winner(&self) -> (r: &Player)
        ensures
            *r == self.spec_winner(),
    {
        match self.winner {
            Winner::Player1 => &self.players.0,
            Winner::Player2 => &self.players.1,
        }
    }

    /// The player who lost.
    pub fn loser(&self) -> (r: &Player)
        ensures
            *r == self.spec_loser(),
    {
        match self.winner {
            Winner::Player1 => &self.players.1,
            Winner::Player2 => &self.players.0,
        }
    }

    /// The floor it was played on.
    pub fn floor(&self) -> (r: Floor)
        ensures
            r == self.spec_floor(),
    {
        self.floor
    }

    /// When it was played.
    pub fn timestamp(&self) -> (r: Timestamp)
        ensures
            r == self.spec_timestamp(),
    {
        self.timestamp
    }

    /// The outcome flag.
    pub fn outcome(&self) -> (r: Winner)
        ensures
            r == self.spec_outcome(),
    {
        self.winner
    }
}

/// The match as text: time, floor, winner and loser, one per line.
pub open spec fn match_text(m: Match) -> Seq<char> {
    "Match "@ + utc_text(m.spec_timestamp().spec_nanos()) + " on floor "@ + floor_label(
        m.spec_floor(),
    ) + " {\n  Winner: "@ + player_text(m.spec_winner()) + "\n  Loser: "@ + player_text(
        m.spec_loser(),
    ) + "\n}"@
}

impl Match {
    /// The match as text for logs: time, floor, then winner and loser.
    pub fn to_text(&self) -> (r: String)
        ensures
            r@ == match_text(*self),
    {
        let mut r = String::new();
        r.append("Match ");
        let t = self.timestamp.to_text();
        r.append(t.as_str());
        r.append(" on floor ");
        r.append(self.floor.label());
        r.append(" {\n  Winner: ");
        let w = self.winner().to_text();
        r.append(w.as_str());
        r.append("\n  Loser: ");
        let l = self.loser().to_text();
        r.append(l.as_str());
        r.append("\n}");
        proof {
            assert(r@ =~= match_text(*self));
        }
        r
    }
}

/// Whether two matches agree on floor, time, both players and outcome.
pub open spec fn same_match(a: &Match, b: &Match) -> bool {
    a.spec_floor() == b.spec_floor() && a.spec_timestamp() == b.spec_timestamp() && same_player(
        &a.spec_player1(),
        &b.spec_player1(),
    ) && same_player(&a.spec_player2(), &b.spec_player2()) && a.spec_outcome()
        == b.spec_outcome()
}

impl PartialEq for Match {
    fn eq(&self, other: &Match) -> (r: bool)
        ensures
            r == same_match(self, other),
    {
        self.floor == other.floor && self.timestamp == other.timestamp && self.players.0
            == other.players.0 && self.players.1 == other.players.1 && self.winner == other.winner
    }
}

impl vstd::std_specs::cmp::PartialEqSpecImpl for Match {
    open spec fn obeys_eq_spec() -> bool {
        true
    }

    open spec fn eq_spec(&self, other: &Match) -> bool {
        same_match(self, other)
    }
}

/// The outcome flag alone decides the winner and the loser of a match: with
/// the first position flagged the first player wins and the second loses, and
/// with the second position flagged it is the other way round.
pub proof fn lemma_outcome_decides(m: Match)
    ensures
        m.spec_outcome() == Winner::Player1 ==> m.spec_winner() == m.spec_player1()
            && m.spec_loser() == m.spec_player2(),
        m.spec_outcome() == Winner::Player2 ==> m.spec_winner() == m.spec_player2()
            && m.spec_loser() == m.spec_player1(),
{
}

} // verus!
