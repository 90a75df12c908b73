//! [`Position`]: a position as the data names it, and as the library shows it.

use vstd::prelude::*;
use vstd::std_specs::cmp::PartialEqSpec;
use crate::text::same_text;

verus! {

/// Where a student stands in the formation.
///
/// A position that the data names and the library does not know is kept as
/// [`Position::Unknown`], with the name as the data gave it.
#[derive(Debug)]
pub enum Position {
    Front,
    Middle,
    Back,
    /// A position that the library does not know, with its name as the data gave it.
    Unknown(String),
}

impl Position {
    /// The position that the data names `raw`, where the library knows that name.
    pub open spec fn known(raw: Seq<char>) -> Option<Position> {
        if raw == "Front"@ {
            Some(Position::Front)
        } else if raw == "Middle"@ {
            Some(Position::Middle)
        } else if raw == "Back"@ {
            Some(Position::Back)
        } else {
            None
        }
    }

    /// Whether `self` is what the name `raw` stands for: the known position of that name, or,
    /// where the library knows none, the unknown position that carries exactly `raw`.
    pub open spec fn is_named(&self, raw: Seq<char>) -> bool {
        match Position::known(raw) {
            Some(found) => *self == found,
            None => *self matches Position::Unknown(text) && text@ == raw,
        }
    }

    /// Reads a position from the name that the data gives it. No name is refused: one that
    /// the library does not know comes back inside [`Position::Unknown`], unchanged.
    pub fn from_raw(raw: &str) -> (found: Position)
        ensures
            found.is_named(raw@),
    {
        if same_text(raw, "Front") {
            Position::Front
        } else if same_text(raw, "Middle") {
            Position::Middle
        } else if same_text(raw, "Back") {
            Position::Back
        } else {
            Position::Unknown(raw.to_owned())
        }
    }

    /// The text under which the library shows the position.
    pub open spec fn label(&self) -> Seq<char> {
        match self {
            Position::Front => "Front"@,
            Position::Middle => "Middle"@,
            Position::Back => "Back"@,
            Position::Unknown(_) => "Unknown"@,
        }
    }

    /// The position as text. An unknown position is shown as `Unknown`, whatever it carries.
    pub fn to_string(&self) -> (text: String)
        ensures
            text@ == self.label(),
    {
        match self {
            Position::Front => "Front".to_owned(),
            Position::Middle => "Middle".to_owned(),
            Position::Back => "Back".to_owned(),
            Position::Unknown(_) => "Unknown".to_owned(),
        }
    }
}

impl Clone for Position {
    fn clone(&self) -> (copy: Position)
        ensures
            copy == *self,
    {
        match self {
            Position::Front => Position::Front,
            Position::Middle => Position::Middle,
            Position::Back => Position::Back,
            Position::Unknown(text) => Position::Unknown(text.clone()),
        }
    }
}

impl PartialEq for Position {
    fn eq(&self, other: &Position) -> (equal: bool) {
        match (self, other) {
            (Position::Front, Position::Front) => true,
            (Position::Middle, Position::Middle) => true,
            (Position::Back, Position::Back) => true,
            (Position::Unknown(a), Position::Unknown(b)) => *a == *b,
            _ => false,
        }
    }
}

impl Eq for Position {}

/// Two values are equal when they are the same known position, or both unknown with the
/// same text.
impl vstd::std_specs::cmp::PartialEqSpecImpl for Position {
    open spec fn obeys_eq_spec() -> bool {
        true
    }

    open spec fn eq_spec(&self, other: &Position) -> bool {
        match (*self, *other) {
            (Position::Unknown(a), Position::Unknown(b)) => a@ == b@,
            (Position::Unknown(_), _) => false,
            (_, Position::Unknown(_)) => false,
            (a, b) => a == b,
        }
    }
}

/// An unknown position answers to one name only: the text it carries, and that only where
/// the library knows no position of that name. It answers to no name that the library
/// knows, and to no other text.
pub proof fn lemma_unknown_is_exact(text: String, raw: Seq<char>)
    ensures
        Position::Unknown(text).is_named(raw) <==> raw == text@ && Position::known(raw) is None,
{
}

/// A name stands for one position: two values that answer to the same name are equal.
pub proof fn lemma_one_name_one_value(first: Position, second: Position, raw: Seq<char>)
    requires
        first.is_named(raw),
        second.is_named(raw),
    ensures
        first.eq_spec(&second),
{
}

} // verus!
