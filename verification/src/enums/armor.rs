//! [`Armor`]: an armor as the data names it, and as the library shows it.

use vstd::prelude::*;
use vstd::std_specs::cmp::PartialEqSpec;
use crate::text::same_text;

verus! {

/// The kind of armor a student wears.
///
/// An armor that the data names and the library does not know is kept as
/// [`Armor::Unknown`], with the name as the data gave it.
#[derive(Debug)]
pub enum Armor {
    Unarmed,
    ElasticArmor,
    HeavyArmor,
    LightArmor,
    /// An armor that the library does not know, with its name as the data gave it.
    Unknown(String),
}

impl Armor {
    /// The armor that the data names `raw`, where the library knows that name.
    pub open spec fn known(raw: Seq<char>) -> Option<Armor> {
        if raw == "Unarmed"@ {
            Some(Armor::Unarmed)
        } else if raw == "ElasticArmor"@ || raw == "Elastic Armor"@ {
            Some(Armor::ElasticArmor)
        } else if raw == "HeavyArmor"@ || raw == "Heavy Armor"@ {
            Some(Armor::HeavyArmor)
        } else if raw == "LightArmor"@ || raw == "Light Armor"@ {
            Some(Armor::LightArmor)
        } else {
            None
        }
    }

    /// Whether `self` is what the name `raw` stands for: the known armor of that name, or,
    /// where the library knows none, the unknown armor that carries exactly `raw`.
    pub open spec fn is_named(&self, raw: Seq<char>) -> bool {
        match Armor::known(raw) {
            Some(found) => *self == found,
            None => *self matches Armor::Unknown(text) && text@ == raw,
        }
    }

    /// Reads an armor from the name that the data gives it. No name is refused: one that
    /// the library does not know comes back inside [`Armor::Unknown`], unchanged.
    pub fn from_raw(raw: &str) -> (found: Armor)
        ensures
            found.is_named(raw@),
    {
        if same_text(raw, "Unarmed") {
            Armor::Unarmed
        } else if same_text(raw, "ElasticArmor") || same_text(raw, "Elastic Armor") {
            Armor::ElasticArmor
        } else if same_text(raw, "HeavyArmor") || same_text(raw, "Heavy Armor") {
            Armor::HeavyArmor
        } else if same_text(raw, "LightArmor") || same_text(raw, "Light Armor") {
            Armor::LightArmor
        } else {
            Armor::Unknown(raw.to_owned())
        }
    }

    /// The text under which the library shows the armor.
    pub open spec fn label(&self) -> Seq<char> {
        match self {
            Armor::Unarmed => "Unarmed"@,
            Armor::ElasticArmor => "Elastic Armor"@,
            Armor::HeavyArmor => "Heavy Armor"@,
            Armor::LightArmor => "Light Armor"@,
            Armor::Unknown(_) => "Unknown"@,
        }
    }

    /// The armor as text. An unknown armor is shown as `Unknown`, whatever it carries.
    pub fn to_string(&self) -> (text: String)
        ensures
            text@ == self.label(),
    {
        match self {
            Armor::Unarmed => "Unarmed".to_owned(),
            Armor::ElasticArmor => "Elastic Armor".to_owned(),
            Armor::HeavyArmor => "Heavy Armor".to_owned(),
            Armor::LightArmor => "Light Armor".to_owned(),
            Armor::Unknown(_) => "Unknown".to_owned(),
        }
    }
}

impl Clone for Armor {
    fn clone(&self) -> (copy: Armor)
        ensures
            copy == *self,
    {
        match self {
            Armor::Unarmed => Armor::Unarmed,
            Armor::ElasticArmor => Armor::ElasticArmor,
            Armor::HeavyArmor => Armor::HeavyArmor,
            Armor::LightArmor => Armor::LightArmor,
            Armor::Unknown(text) => Armor::Unknown(text.clone()),
        }
    }
}

impl PartialEq for Armor {
    fn eq(&self, other: &Armor) -> (equal: bool) {
        match (self, other) {
            (Armor::Unarmed, Armor::Unarmed) => true,
            (Armor::ElasticArmor, Armor::ElasticArmor) => true,
            (Armor::HeavyArmor, Armor::HeavyArmor) => true,
            (Armor::LightArmor, Armor::LightArmor) => true,
            (Armor::Unknown(a), Armor::Unknown(b)) => *a == *b,
            _ => false,
        }
    }
}

impl Eq for Armor {}

/// Two values are equal when they are the same known armor, or both unknown with the
/// same text.
impl vstd::std_specs::cmp::PartialEqSpecImpl for Armor {
    open spec fn obeys_eq_spec() -> bool {
        true
    }

    open spec fn eq_spec(&self, other: &Armor) -> bool {
        match (*self, *other) {
            (Armor::Unknown(a), Armor::Unknown(b)) => a@ == b@,
            (Armor::Unknown(_), _) => false,
            (_, Armor::Unknown(_)) => false,
            (a, b) => a == b,
        }
    }
}

/// An unknown armor answers to one name only: the text it carries, and that only where
/// the library knows no armor of that name. It answers to no name that the library
/// knows, and to no other text.
pub proof fn lemma_unknown_is_exact(text: String, raw: Seq<char>)
    ensures
        Armor::Unknown(text).is_named(raw) <==> raw == text@ && Armor::known(raw) is None,
{
}

/// A name stands for one armor: two values that answer to the same name are equal.
pub proof fn lemma_one_name_one_value(first: Armor, second: Armor, raw: Seq<char>)
    requires
        first.is_named(raw),
        second.is_named(raw),
    ensures
        first.eq_spec(&second),
{
}

} // verus!
