//! Raids: the factions that the bosses belong to.

use vstd::prelude::*;
use crate::text::same_text;

verus! {

/// The faction that a raid boss belongs to.
#[derive(Debug, Clone, Copy, PartialEq, Eq, Structural)]
pub enum Faction {
    Decagrammaton,
    Slumpia,
    CommunioSanctorum,
    Kaitenger,
    TheLibraryofLore,
    SevenPrisoners,
    HundredGhostTales,
}

impl Faction {
    /// How the faction is written.
    pub open spec fn label(&self) -> Seq<char> {
        match self {
            Faction::Decagrammaton => "Decagrammaton"@,
            Faction::Slumpia => "Slumpia"@,
            Faction::CommunioSanctorum => "Communio Sanctorum"@,
            Faction::Kaitenger => "Kaitenger"@,
            Faction::TheLibraryofLore => "The Library of Lore"@,
            Faction::SevenPrisoners => "Seven Prisoners"@,
            Faction::HundredGhostTales => "Hundred Ghost Tales"@,
        }
    }

    /// The faction as text.
    pub fn to_string(&self) -> (text: String)
        ensures
            text@ == self.label(),
    {
        match self {
            Faction::Decagrammaton => "Decagrammaton".to_owned(),
            Faction::Slumpia => "Slumpia".to_owned(),
            Faction::CommunioSanctorum => "Communio Sanctorum".to_owned(),
            Faction::Kaitenger => "Kaitenger".to_owned(),
            Faction::TheLibraryofLore => "The Library of Lore".to_owned(),
            Faction::SevenPrisoners => "Seven Prisoners".to_owned(),
            Faction::HundredGhostTales => "Hundred Ghost Tales".to_owned(),
        }
    }

    /// The faction that is written `raw`, if there is one.
    pub open spec fn known(raw: Seq<char>) -> Option<Faction> {
        if raw == "Decagrammaton"@ {
            Some(Faction::Decagrammaton)
        } else if raw == "Slumpia"@ {
            Some(Faction::Slumpia)
        } else if raw == "Communio Sanctorum"@ {
            Some(Faction::CommunioSanctorum)
        } else if raw == "Kaitenger"@ {
            Some(Faction::Kaitenger)
        } else if raw == "The Library of Lore"@ {
            Some(Faction::TheLibraryofLore)
        } else if raw == "Seven Prisoners"@ {
            Some(Faction::SevenPrisoners)
        } else if raw == "Hundred Ghost Tales"@ {
            Some(Faction::HundredGhostTales)
        } else {
            None
        }
    }

    /// Reads the faction from the way it is written; none where `raw` writes none.
    pub fn parse(raw: &str) -> (found: Option<Faction>)
        ensures
            found == Faction::known(raw@),
    {
        if same_text(raw, "Decagrammaton") {
            Some(Faction::Decagrammaton)
        } else if same_text(raw, "Slumpia") {
            Some(Faction::Slumpia)
        } else if same_text(raw, "Communio Sanctorum") {
            Some(Faction::CommunioSanctorum)
        } else if same_text(raw, "Kaitenger") {
            Some(Faction::Kaitenger)
        } else if same_text(raw, "The Library of Lore") {
            Some(Faction::TheLibraryofLore)
        } else if same_text(raw, "Seven Prisoners") {
            Some(Faction::SevenPrisoners)
        } else if same_text(raw, "Hundred Ghost Tales") {
            Some(Faction::HundredGhostTales)
        } else {
            None
        }
    }
}

} // verus!
