//! [`BulletType`]: a bullet type as the data names it, and as the library shows it.

use vstd::prelude::*;
use vstd::std_specs::cmp::PartialEqSpec;
use crate::text::same_text;

verus! {

/// The kind of damage a student deals.
///
/// A bullet type that the data names and the library does not know is kept as
/// [`BulletType::Unknown`], with the name as the data gave it.
#[derive(Debug)]
pub enum BulletType {
    Explosion,
    Mystic,
    Penetration,
    /// A bullet type that the library does not know, with its name as the data gave it.
    Unknown(String),
}

impl BulletType {
    /// The bullet type that the data names `raw`, where the library knows that name.
    pub open spec fn known(raw: Seq<char>) -> Option<BulletType> {
        if raw == "Explosion"@ {
            Some(BulletType::Explosion)
        } else if raw == "Mystic"@ {
            Some(BulletType::Mystic)
        } else if raw == "Penetration"@ {
            Some(BulletType::Penetration)
        } else {
            None
        }
    }

    /// Whether `self` is what the name `raw` stands for: the known bullet type of that name, or,
    /// where the library knows none, the unknown bullet type that carries exactly `raw`.
    pub open spec fn is_named(&self, raw: Seq<char>) -> bool {
        match BulletType::known(raw) {
            Some(found) => *self == found,
            None => *self matches BulletType::Unknown(text) && text@ == raw,
        }
    }

    /// Reads a bullet type from the name that the data gives it. No name is refused: one that
    /// the library does not know comes back inside [`BulletType::Unknown`], unchanged.
    pub fn from_raw(raw: &str) -> (found: BulletType)
        ensures
            found.is_named(raw@),
    {
        if same_text(raw, "Explosion") {
            BulletType::Explosion
        } else if same_text(raw, "Mystic") {
            BulletType::Mystic
        } else if same_text(raw, "Penetration") {
            BulletType::Penetration
        } else {
            BulletType::Unknown(raw.to_owned())
        }
    }

    /// The text under which the library shows the bullet type.
    pub open spec fn label(&self) -> Seq<char> {
        match self {
            BulletType::Explosion => "Explosion"@,
            BulletType::Mystic => "Mystic"@,
            BulletType::Penetration => "Penetration"@,
            BulletType::Unknown(_) => "Unknown"@,
        }
    }

    /// The bullet type as text. An unknown bullet type is shown as `Unknown`, whatever it carries.
    pub fn to_string(&self) -> (text: String)
        ensures
            text@ == self.label(),
    {
        match self {
            BulletType::Explosion => "Explosion".to_owned(),
            BulletType::Mystic => "Mystic".to_owned(),
            BulletType::Penetration => "Penetration".to_owned(),
            BulletType::Unknown(_) => "Unknown".to_owned(),
        }
    }
}

impl Clone for BulletType {
    fn clone(&self) -> (copy: BulletType)
        ensures
            copy == *self,
    {
        match self {
            BulletType::Explosion => BulletType::Explosion,
            BulletType::Mystic => BulletType::Mystic,
            BulletType::Penetration => BulletType::Penetration,
            BulletType::Unknown(text) => BulletType::Unknown(text.clone()),
        }
    }
}

impl PartialEq for BulletType {
    fn eq(&self, other: &BulletType) -> (equal: bool) {
        match (self, other) {
            (BulletType::Explosion, BulletType::Explosion) => true,
            (BulletType::Mystic, BulletType::Mystic) => true,
            (BulletType::Penetration, BulletType::Penetration) => true,
            (BulletType::Unknown(a), BulletType::Unknown(b)) => *a == *b,
            _ => false,
        }
    }
}

impl Eq for BulletType {}

/// Two values are equal when they are the same known bullet type, or both unknown with the
/// same text.
impl vstd::std_specs::cmp::PartialEqSpecImpl for BulletType {
    open spec fn obeys_eq_spec() -> bool {
        true
    }

    open spec fn eq_spec(&self, other: &BulletType) -> bool {
        match (*self, *other) {
            (BulletType::Unknown(a), BulletType::Unknown(b)) => a@ == b@,
            (BulletType::Unknown(_), _) => false,
            (_, BulletType::Unknown(_)) => false,
            (a, b) => a == b,
        }
    }
}

/// An unknown bullet type answers to one name only: the text it carries, and that only where
/// the library knows no bullet type of that name. It answers to no name that the library
/// knows, and to no other text.
pub proof fn lemma_unknown_is_exact(text: String, raw: Seq<char>)
    ensures
        BulletType::Unknown(text).is_named(raw) <==> raw == text@ && BulletType::known(raw) is None,
{
}

/// A name stands for one bullet type: two values that answer to the same name are equal.
pub proof fn lemma_one_name_one_value(first: BulletType, second: BulletType, raw: Seq<char>)
    requires
        first.is_named(raw),
        second.is_named(raw),
    ensures
        first.eq_spec(&second),
{
}

} // verus!
