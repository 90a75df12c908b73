//! [`WeaponType`]: a weapon type as the data names it, and as the library shows it.

use vstd::prelude::*;
use vstd::std_specs::cmp::PartialEqSpec;
use crate::text::same_text;

verus! {

/// The kind of weapon a student carries.
///
/// A weapon type that the data names and the library does not know is kept as
/// [`WeaponType::Unknown`], with the name as the data gave it.
#[derive(Debug)]
pub enum WeaponType {
    /// Assault rifle
    AR,
    /// Flamethrower
    FT,
    /// Sniper rifle
    SR,
    /// Machine gun
    MG,
    /// Mortar
    MT,
    /// Handgun
    HG,
    /// Submachine gun
    SMG,
    /// Rocket launcher
    RL,
    /// Shotgun
    SG,
    /// Grenade launcher
    GL,
    /// Railgun
    RG,
    /// A weapon type that the library does not know, with its name as the data gave it.
    Unknown(String),
}

impl WeaponType {
    /// The weapon type that the data names `raw`, where the library knows that name.
    pub open spec fn known(raw: Seq<char>) -> Option<WeaponType> {
        if raw == "AR"@ {
            Some(WeaponType::AR)
        } else if raw == "FT"@ {
            Some(WeaponType::FT)
        } else if raw == "SR"@ {
            Some(WeaponType::SR)
        } else if raw == "MG"@ {
            Some(WeaponType::MG)
        } else if raw == "MT"@ {
            Some(WeaponType::MT)
        } else if raw == "HG"@ {
            Some(WeaponType::HG)
        } else if raw == "SMG"@ {
            Some(WeaponType::SMG)
        } else if raw == "RL"@ {
            Some(WeaponType::RL)
        } else if raw == "SG"@ {
            Some(WeaponType::SG)
        } else if raw == "GL"@ {
            Some(WeaponType::GL)
        } else if raw == "RG"@ {
            Some(WeaponType::RG)
        } else {
            None
        }
    }

    /// Whether `self` is what the name `raw` stands for: the known weapon type of that name, or,
    /// where the library knows none, the unknown weapon type that carries exactly `raw`.
    pub open spec fn is_named(&self, raw: Seq<char>) -> bool {
        match WeaponType::known(raw) {
            Some(found) => *self == found,
            None => *self matches WeaponType::Unknown(text) && text@ == raw,
        }
    }

    /// Reads a weapon type from the name that the data gives it. No name is refused: one that
    /// the library does not know comes back inside [`WeaponType::Unknown`], unchanged.
    pub fn from_raw(raw: &str) -> (found: WeaponType)
        ensures
            found.is_named(raw@),
    {
        if same_text(raw, "AR") {
            WeaponType::AR
        } else if same_text(raw, "FT") {
            WeaponType::FT
        } else if same_text(raw, "SR") {
            WeaponType::SR
        } else if same_text(raw, "MG") {
            WeaponType::MG
        } else if same_text(raw, "MT") {
            WeaponType::MT
        } else if same_text(raw, "HG") {
            WeaponType::HG
        } else if same_text(raw, "SMG") {
            WeaponType::SMG
        } else if same_text(raw, "RL") {
            WeaponType::RL
        } else if same_text(raw, "SG") {
            WeaponType::SG
        } else if same_text(raw, "GL") {
            WeaponType::GL
        } else if same_text(raw, "RG") {
            WeaponType::RG
        } else {
            WeaponType::Unknown(raw.to_owned())
        }
    }

    /// The text under which the library shows the weapon type.
    pub open spec fn label(&self) -> Seq<char> {
        match self {
            WeaponType::AR => "AR"@,
            WeaponType::FT => "FT"@,
            WeaponType::SR => "SR"@,
            WeaponType::MG => "MG"@,
            WeaponType::MT => "MT"@,
            WeaponType::HG => "HG"@,
            WeaponType::SMG => "SMG"@,
            WeaponType::RL => "RL"@,
            WeaponType::SG => "SG"@,
            WeaponType::GL => "GL"@,
            WeaponType::RG => "RG"@,
            WeaponType::Unknown(_) => "Unknown"@,
        }
    }

    /// The weapon type as text. An unknown weapon type is shown as `Unknown`, whatever it carries.
    pub fn to_string(&self) -> (text: String)
        ensures
            text@ == self.label(),
    {
        match self {
            WeaponType::AR => "AR".to_owned(),
            WeaponType::FT => "FT".to_owned(),
            WeaponType::SR => "SR".to_owned(),
            WeaponType::MG => "MG".to_owned(),
            WeaponType::MT => "MT".to_owned(),
            WeaponType::HG => "HG".to_owned(),
            WeaponType::SMG => "SMG".to_owned(),
            WeaponType::RL => "RL".to_owned(),
            WeaponType::SG => "SG".to_owned(),
            WeaponType::GL => "GL".to_owned(),
            WeaponType::RG => "RG".to_owned(),
            WeaponType::Unknown(_) => "Unknown".to_owned(),
        }
    }

    /// What [`WeaponType::full_name`] returns.
    pub open spec fn spec_full_name(&self) -> Seq<char> {
        match self {
            WeaponType::AR => "Assault Rifle"@,
            WeaponType::FT => "Flamethrower"@,
            WeaponType::SR => "Sniper Rifle"@,
            WeaponType::MG => "Machine Gun"@,
            WeaponType::MT => "Mortar"@,
            WeaponType::HG => "Handgun"@,
            WeaponType::SMG => "Submachine Gun"@,
            WeaponType::RL => "Rocket Launcher"@,
            WeaponType::SG => "Shotgun"@,
            WeaponType::GL => "Grenade Launcher"@,
            WeaponType::RG => "Railgun"@,
            WeaponType::Unknown(text) => text@,
        }
    }

    /// The full name of the weapon type; for an unknown one, the name as the data gave it.
    pub fn full_name(&self) -> (text: String)
        ensures
            text@ == self.spec_full_name(),
    {
        match self {
            WeaponType::AR => "Assault Rifle".to_owned(),
            WeaponType::FT => "Flamethrower".to_owned(),
            WeaponType::SR => "Sniper Rifle".to_owned(),
            WeaponType::MG => "Machine Gun".to_owned(),
            WeaponType::MT => "Mortar".to_owned(),
            WeaponType::HG => "Handgun".to_owned(),
            WeaponType::SMG => "Submachine Gun".to_owned(),
            WeaponType::RL => "Rocket Launcher".to_owned(),
            WeaponType::SG => "Shotgun".to_owned(),
            WeaponType::GL => "Grenade Launcher".to_owned(),
            WeaponType::RG => "Railgun".to_owned(),
            WeaponType::Unknown(text) => text.clone(),
        }
    }
}

impl Clone for WeaponType {
    fn clone(&self) -> (copy: WeaponType)
        ensures
            copy == *self,
    {
        match self {
            WeaponType::AR => WeaponType::AR,
            WeaponType::FT => WeaponType::FT,
            WeaponType::SR => WeaponType::SR,
            WeaponType::MG => WeaponType::MG,
            WeaponType::MT => WeaponType::MT,
            WeaponType::HG => WeaponType::HG,
            WeaponType::SMG => WeaponType::SMG,
            WeaponType::RL => WeaponType::RL,
            WeaponType::SG => WeaponType::SG,
            WeaponType::GL => WeaponType::GL,
            WeaponType::RG => WeaponType::RG,
            WeaponType::Unknown(text) => WeaponType::Unknown(text.clone()),
        }
    }
}

impl PartialEq for WeaponType {
    fn eq(&self, other: &WeaponType) -> (equal: bool) {
        match (self, other) {
            (WeaponType::AR, WeaponType::AR) => true,
            (WeaponType::FT, WeaponType::FT) => true,
            (WeaponType::SR, WeaponType::SR) => true,
            (WeaponType::MG, WeaponType::MG) => true,
            (WeaponType::MT, WeaponType::MT) => true,
            (WeaponType::HG, WeaponType::HG) => true,
            (WeaponType::SMG, WeaponType::SMG) => true,
            (WeaponType::RL, WeaponType::RL) => true,
            (WeaponType::SG, WeaponType::SG) => true,
            (WeaponType::GL, WeaponType::GL) => true,
            (WeaponType::RG, WeaponType::RG) => true,
            (WeaponType::Unknown(a), WeaponType::Unknown(b)) => *a == *b,
            _ => false,
        }
    }
}

impl Eq for WeaponType {}

/// Two values are equal when they are the same known weapon type, or both unknown with the
/// same text.
impl vstd::std_specs::cmp::PartialEqSpecImpl for WeaponType {
    open spec fn obeys_eq_spec() -> bool {
        true
    }

    open spec fn eq_spec(&self, other: &WeaponType) -> bool {
        match (*self, *other) {
            (WeaponType::Unknown(a), WeaponType::Unknown(b)) => a@ == b@,
            (WeaponType::Unknown(_), _) => false,
            (_, WeaponType::Unknown(_)) => false,
            (a, b) => a == b,
        }
    }
}

/// An unknown weapon type answers to one name only: the text it carries, and that only where
/// the library knows no weapon type of that name. It answers to no name that the library
/// knows, and to no other text.
pub proof fn lemma_unknown_is_exact(text: String, raw: Seq<char>)
    ensures
        WeaponType::Unknown(text).is_named(raw) <==> raw == text@ && WeaponType::known(raw) is None,
{
}

/// A name stands for one weapon type: two values that answer to the same name are equal.
pub proof fn lemma_one_name_one_value(first: WeaponType, second: WeaponType, raw: Seq<char>)
    requires
        first.is_named(raw),
        second.is_named(raw),
    ensures
        first.eq_spec(&second),
{
}

} // verus!
