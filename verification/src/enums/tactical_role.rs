//! [`TacticalRole`]: a tactical role as the data names it, and as the library shows it.

use vstd::prelude::*;
use vstd::std_specs::cmp::PartialEqSpec;
use crate::text::same_text;

verus! {

/// The part a student plays in battle.
///
/// A role that the data names and the library does not know is kept as
/// [`TacticalRole::Unknown`], with the name as the data gave it.
#[derive(Debug)]
pub enum TacticalRole {
    Tanker,
    Vehicle,
    DamageDealer,
    Healer,
    Supporter,
    /// A tactical role that the library does not know, with its name as the data gave it.
    Unknown(String),
}

impl TacticalRole {
    /// The tactical role that the data names `raw`, where the library knows that name.
    pub open spec fn known(raw: Seq<char>) -> Option<TacticalRole> {
        if raw == "Tanker"@ {
            Some(TacticalRole::Tanker)
        } else if raw == "Vehicle"@ {
            Some(TacticalRole::Vehicle)
        } else if raw == "DamageDealer"@ || raw == "Damage Dealer"@ {
            Some(TacticalRole::DamageDealer)
        } else if raw == "Healer"@ {
            Some(TacticalRole::Healer)
        } else if raw == "Supporter"@ {
            Some(TacticalRole::Supporter)
        } else {
            None
        }
    }

    /// Whether `self` is what the name `raw` stands for: the known tactical role of that name, or,
    /// where the library knows none, the unknown tactical role that carries exactly `raw`.
    pub open spec fn is_named(&self, raw: Seq<char>) -> bool {
        match TacticalRole::known(raw) {
            Some(found) => *self == found,
            None => *self matches TacticalRole::Unknown(text) && text@ == raw,
        }
    }

    /// Reads a tactical role from the name that the data gives it. No name is refused: one that
    /// the library does not know comes back inside [`TacticalRole::Unknown`], unchanged.
    pub fn from_raw(raw: &str) -> (found: TacticalRole)
        ensures
            found.is_named(raw@),
    {
        if same_text(raw, "Tanker") {
            TacticalRole::Tanker
        } else if same_text(raw, "Vehicle") {
            TacticalRole::Vehicle
        } else if same_text(raw, "DamageDealer") || same_text(raw, "Damage Dealer") {
            TacticalRole::DamageDealer
        } else if same_text(raw, "Healer") {
            TacticalRole::Healer
        } else if same_text(raw, "Supporter") {
            TacticalRole::Supporter
        } else {
            TacticalRole::Unknown(raw.to_owned())
        }
    }

    /// The text under which the library shows the tactical role.
    pub open spec fn label(&self) -> Seq<char> {
        match self {
            TacticalRole::Tanker => "Tanker"@,
            TacticalRole::Vehicle => "Vehicle"@,
            TacticalRole::DamageDealer => "Damage Dealer"@,
            TacticalRole::Healer => "Healer"@,
            TacticalRole::Supporter => "Supporter"@,
            TacticalRole::Unknown(_) => "Unknown"@,
        }
    }

    /// The tactical role as text. An unknown tactical role is shown as `Unknown`, whatever it carries.
    pub fn to_string(&self) -> (text: String)
        ensures
            text@ == self.label(),
    {
        match self {
            TacticalRole::Tanker => "Tanker".to_owned(),
            TacticalRole::Vehicle => "Vehicle".to_owned(),
            TacticalRole::DamageDealer => "Damage Dealer".to_owned(),
            TacticalRole::Healer => "Healer".to_owned(),
            TacticalRole::Supporter => "Supporter".to_owned(),
            TacticalRole::Unknown(_) => "Unknown".to_owned(),
        }
    }
}

impl Clone for TacticalRole {
    fn clone(&self) -> (copy: TacticalRole)
        ensures
            copy == *self,
    {
        match self {
            TacticalRole::Tanker => TacticalRole::Tanker,
            TacticalRole::Vehicle => TacticalRole::Vehicle,
            TacticalRole::DamageDealer => TacticalRole::DamageDealer,
            TacticalRole::Healer => TacticalRole::Healer,
            TacticalRole::Supporter => TacticalRole::Supporter,
            TacticalRole::Unknown(text) => TacticalRole::Unknown(text.clone()),
        }
    }
}

impl PartialEq for TacticalRole {
    fn eq(&self, other: &TacticalRole) -> (equal: bool) {
        match (self, other) {
            (TacticalRole::Tanker, TacticalRole::Tanker) => true,
            (TacticalRole::Vehicle, TacticalRole::Vehicle) => true,
            (TacticalRole::DamageDealer, TacticalRole::DamageDealer) => true,
            (TacticalRole::Healer, TacticalRole::Healer) => true,
            (TacticalRole::Supporter, TacticalRole::Supporter) => true,
            (TacticalRole::Unknown(a), TacticalRole::Unknown(b)) => *a == *b,
            _ => false,
        }
    }
}

impl Eq for TacticalRole {}

/// Two values are equal when they are the same known tactical role, or both unknown with the
/// same text.
impl vstd::std_specs::cmp::PartialEqSpecImpl for TacticalRole {
    open spec fn obeys_eq_spec() -> bool {
        true
    }

    open spec fn eq_spec(&self, other: &TacticalRole) -> bool {
        match (*self, *other) {
            (TacticalRole::Unknown(a), TacticalRole::Unknown(b)) => a@ == b@,
            (TacticalRole::Unknown(_), _) => false,
            (_, TacticalRole::Unknown(_)) => false,
            (a, b) => a == b,
        }
    }
}

/// An unknown tactical role answers to one name only: the text it carries, and that only where
/// the library knows no tactical role of that name. It answers to no name that the library
/// knows, and to no other text.
pub proof fn lemma_unknown_is_exact(text: String, raw: Seq<char>)
    ensures
        TacticalRole::Unknown(text).is_named(raw) <==> raw == text@ && TacticalRole::known(raw) is None,
{
}

/// A name stands for one tactical role: two values that answer to the same name are equal.
pub proof fn lemma_one_name_one_value(first: TacticalRole, second: TacticalRole, raw: Seq<char>)
    requires
        first.is_named(raw),
        second.is_named(raw),
    ensures
        first.eq_spec(&second),
{
}

} // verus!
