//! [`School`]: a school as the data names it, and as the library shows it.

use vstd::prelude::*;
use vstd::std_specs::cmp::PartialEqSpec;
use crate::text::same_text;

verus! {

/// A school of Kivotos.
///
/// A school that the data names and the library does not know is kept as
/// [`School::Unknown`], with the name as the data gave it.
#[derive(Debug)]
pub enum School {
    /// **Abydos** High School
    Abydos,
    /// **Gehenna** Academy
    Gehenna,
    /// **Hyakkiyako** Alliance Academy
    Hyakkiyako,
    /// **Millennium** Science School
    Millennium,
    /// **Shanhaijing** Senior Secondary School
    Shanhaijing,
    /// **Trinity** General School
    Trinity,
    /// **Red Winter** Federal Academy
    RedWinter,
    /// **Valkyrie** Police Academy
    Valkyrie,
    /// **Arius** Branch School
    Arius,
    /// **SRT** Special Academy
    SRT,
    /// A school that the library does not know, with its name as the data gave it.
    Unknown(String),
}

impl School {
    /// The school that the data names `raw`, where the library knows that name.
    pub open spec fn known(raw: Seq<char>) -> Option<School> {
        if raw == "Abydos"@ {
            Some(School::Abydos)
        } else if raw == "Gehenna"@ {
            Some(School::Gehenna)
        } else if raw == "Hyakkiyako"@ {
            Some(School::Hyakkiyako)
        } else if raw == "Millennium"@ {
            Some(School::Millennium)
        } else if raw == "Shanhaijing"@ {
            Some(School::Shanhaijing)
        } else if raw == "Trinity"@ {
            Some(School::Trinity)
        } else if raw == "RedWinter"@ {
            Some(School::RedWinter)
        } else if raw == "Valkyrie"@ {
            Some(School::Valkyrie)
        } else if raw == "Arius"@ {
            Some(School::Arius)
        } else if raw == "SRT"@ {
            Some(School::SRT)
        } else {
            None
        }
    }

    /// Whether `self` is what the name `raw` stands for: the known school of that name, or,
    /// where the library knows none, the unknown school that carries exactly `raw`.
    pub open spec fn is_named(&self, raw: Seq<char>) -> bool {
        match School::known(raw) {
            Some(found) => *self == found,
            None => *self matches School::Unknown(text) && text@ == raw,
        }
    }

    /// Reads a school from the name that the data gives it. No name is refused: one that
    /// the library does not know comes back inside [`School::Unknown`], unchanged.
    pub fn from_raw(raw: &str) -> (found: School)
        ensures
            found.is_named(raw@),
    {
        if same_text(raw, "Abydos") {
            School::Abydos
        } else if same_text(raw, "Gehenna") {
            School::Gehenna
        } else if same_text(raw, "Hyakkiyako") {
            School::Hyakkiyako
        } else if same_text(raw, "Millennium") {
            School::Millennium
        } else if same_text(raw, "Shanhaijing") {
            School::Shanhaijing
        } else if same_text(raw, "Trinity") {
            School::Trinity
        } else if same_text(raw, "RedWinter") {
            School::RedWinter
        } else if same_text(raw, "Valkyrie") {
            School::Valkyrie
        } else if same_text(raw, "Arius") {
            School::Arius
        } else if same_text(raw, "SRT") {
            School::SRT
        } else {
            School::Unknown(raw.to_owned())
        }
    }

    /// The text under which the library shows the school.
    pub open spec fn label(&self) -> Seq<char> {
        match self {
            School::Abydos => "Abydos"@,
            School::Gehenna => "Gehenna"@,
            School::Hyakkiyako => "Hyakkiyako"@,
            School::Millennium => "Millennium"@,
            School::Shanhaijing => "Shanhaijing"@,
            School::Trinity => "Trinity"@,
            School::RedWinter => "RedWinter"@,
            School::Valkyrie => "Valkyrie"@,
            School::Arius => "Arius"@,
            School::SRT => "SRT"@,
            School::Unknown(_) => "Unknown"@,
        }
    }

    /// The school as text. An unknown school is shown as `Unknown`, whatever it carries.
    pub fn to_string(&self) -> (text: String)
        ensures
            text@ == self.label(),
    {
        match self {
            School::Abydos => "Abydos".to_owned(),
            School::Gehenna => "Gehenna".to_owned(),
            School::Hyakkiyako => "Hyakkiyako".to_owned(),
            School::Millennium => "Millennium".to_owned(),
            School::Shanhaijing => "Shanhaijing".to_owned(),
            School::Trinity => "Trinity".to_owned(),
            School::RedWinter => "RedWinter".to_owned(),
            School::Valkyrie => "Valkyrie".to_owned(),
            School::Arius => "Arius".to_owned(),
            School::SRT => "SRT".to_owned(),
            School::Unknown(_) => "Unknown".to_owned(),
        }
    }

    /// What [`School::full_name`] returns.
    pub open spec fn spec_full_name(&self) -> Seq<char> {
        match self {
            School::Abydos => "Abydos High School"@,
            School::Gehenna => "Gehenna Academy"@,
            School::Hyakkiyako => "Hyakkiyako Alliance Academy"@,
            School::Millennium => "Millennium Science School"@,
            School::Shanhaijing => "Shanhaijing Senior Secondary School"@,
            School::Trinity => "Trinity General School"@,
            School::RedWinter => "Red Winter Federal Academy"@,
            School::Valkyrie => "Valkyrie Police Academy"@,
            School::Arius => "Arius Branch School"@,
            School::SRT => "SRT Special Academy"@,
            School::Unknown(text) => text@,
        }
    }

    /// The full name of the school; for an unknown school, the name as the data gave it.
    pub fn full_name(&self) -> (text: String)
        ensures
            text@ == self.spec_full_name(),
    {
        match self {
            School::Abydos => "Abydos High School".to_owned(),
            School::Gehenna => "Gehenna Academy".to_owned(),
            School::Hyakkiyako => "Hyakkiyako Alliance Academy".to_owned(),
            School::Millennium => "Millennium Science School".to_owned(),
            School::Shanhaijing => "Shanhaijing Senior Secondary School".to_owned(),
            School::Trinity => "Trinity General School".to_owned(),
            School::RedWinter => "Red Winter Federal Academy".to_owned(),
            School::Valkyrie => "Valkyrie Police Academy".to_owned(),
            School::Arius => "Arius Branch School".to_owned(),
            School::SRT => "SRT Special Academy".to_owned(),
            School::Unknown(text) => text.clone(),
        }
    }
}

impl Clone for School {
    fn clone(&self) -> (copy: School)
        ensures
            copy == *self,
    {
        match self {
            School::Abydos => School::Abydos,
            School::Gehenna => School::Gehenna,
            School::Hyakkiyako => School::Hyakkiyako,
            School::Millennium => School::Millennium,
            School::Shanhaijing => School::Shanhaijing,
            School::Trinity => School::Trinity,
            School::RedWinter => School::RedWinter,
            School::Valkyrie => School::Valkyrie,
            School::Arius => School::Arius,
            School::SRT => School::SRT,
            School::Unknown(text) => School::Unknown(text.clone()),
        }
    }
}

impl PartialEq for School {
    fn eq(&self, other: &School) -> (equal: bool) {
        match (self, other) {
            (School::Abydos, School::Abydos) => true,
            (School::Gehenna, School::Gehenna) => true,
            (School::Hyakkiyako, School::Hyakkiyako) => true,
            (School::Millennium, School::Millennium) => true,
            (School::Shanhaijing, School::Shanhaijing) => true,
            (School::Trinity, School::Trinity) => true,
            (School::RedWinter, School::RedWinter) => true,
            (School::Valkyrie, School::Valkyrie) => true,
            (School::Arius, School::Arius) => true,
            (School::SRT, School::SRT) => true,
            (School::Unknown(a), School::Unknown(b)) => *a == *b,
            _ => false,
        }
    }
}

impl Eq for School {}

/// Two values are equal when they are the same known school, or both unknown with the
/// same text.
impl vstd::std_specs::cmp::PartialEqSpecImpl for School {
    open spec fn obeys_eq_spec() -> bool {
        true
    }

    open spec fn eq_spec(&self, other: &School) -> bool {
        match (*self, *other) {
            (School::Unknown(a), School::Unknown(b)) => a@ == b@,
            (School::Unknown(_), _) => false,
            (_, School::Unknown(_)) => false,
            (a, b) => a == b,
        }
    }
}

/// An unknown school answers to one name only: the text it carries, and that only where
/// the library knows no school of that name. It answers to no name that the library
/// knows, and to no other text.
pub proof fn lemma_unknown_is_exact(text: String, raw: Seq<char>)
    ensures
        School::Unknown(text).is_named(raw) <==> raw == text@ && School::known(raw) is None,
{
}

/// A name stands for one school: two values that answer to the same name are equal.
pub proof fn lemma_one_name_one_value(first: School, second: School, raw: Seq<char>)
    requires
        first.is_named(raw),
        second.is_named(raw),
    ensures
        first.eq_spec(&second),
{
}

} // verus!
