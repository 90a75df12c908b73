//! [`Club`]: a club as the data names it, and as the library shows it.

use vstd::prelude::*;
use vstd::std_specs::cmp::PartialEqSpec;
use crate::text::same_text;

verus! {

/// A club that students belong to.
///
/// The data names each club by a short tag; the library also reads the name under
/// which it shows the club. A club that the data names and the library does not know
/// is kept as [`Club::Unknown`], with the name as the data gave it.
#[derive(Debug, Hash)]
pub enum Club {
    /// **Problem Solver 68**, which the data names `Kohshinjo68`
    ProblemSolver68,
    /// **Super Phenomenon Task Force**, which the data names `SPTF`
    SuperPhenomenonTaskForce,
    /// **Gourmet Research Society**, which the data names `GourmetClub`
    GourmetResearchSociety,
    /// **Make-Up Work Club**, which the data names `RemedialClass`
    MakeUpWorkClub,
    /// **Prefect Team**, which the data names `Fuuki`
    PrefectTeam,
    /// **Foreclosure Task Force**, which the data names `Countermeasure`
    ForeclosureTaskForce,
    Veritas,
    /// **Cleaning & Clearing**, which the data names `CleanNClearing`
    CleaningAndClearing,
    /// **Plum Blossom Garden**, which the data names `Meihuayuan`
    PlumBlossomGarden,
    /// **Athletics Training Club**, which the data names `TrainingClub`
    AthleticsTrainingClub,
    /// **Ninjutsu Research Club**, which the data names `NinpoKenkyubu`
    NinjutsuResearchClub,
    /// **Justice Task Force**, which the data names `Justice`
    JusticeTaskForce,
    /// **Game Development Club**, which the data names `GameDev`
    GameDevelopmentClub,
    /// **Red Winter Office**, which the data names `RedwinterSecretary`
    RedWinterSecretary,
    /// **After-School Sweets Club**, which the data names `HoukagoDessert`
    AfterSchoolSweetsClub,
    /// **Unassigned**, which the data names `EmptyClub`
    Unassigned,
    /// **Inner Discipline Club**, which the data names `Shugyobu`
    InnerDisciplineClub,
    /// **Library Committee**, which the data names `BookClub`
    LibraryCommittee,
    /// **Sisterhood**, which the data names `SisterHood`
    Sisterhood,
    /// **RABBIT Squad**, which the data names `RabbitPlatoon`
    RABBITSquad,
    /// **Arius Squad**, which the data names `AriusSqud`
    AriusSquad,
    /// **Yin-Yang Club**, which the data names `Onmyobu`
    YinYangClub,
    /// **Seminar**, which the data names `TheSeminar`
    Seminar,
    /// **Public Safety Bureau**, which the data names `anzenkyoku`
    PublicSafetyBureau,
    /// **Public Peace Bureau**, which the data names `PublicPeaceBureau`
    PublicPeaceBureau,
    /// **Engineering Club**, which the data names `Engineer`
    EngineeringClub,
    /// **Trinity Vigilante Crew**, which the data names `TrinityVigilance`
    TrinityVigilanteCrew,
    /// **Festival Operations Department**, which the data names `MatsuriOffice`
    FestivalOperationsDepartment,
    /// **Chinese Alchemy Study Club**, which the data names `Endanbou`
    ChineseAlchemyStudyClub,
    /// **Spec Ops #227**, which the data names `Class227`
    SpecOpsNumber227,
    /// **Medical Emergency Club**, which the data names `Emergentology`
    MedicalEmergencyClub,
    /// **School Lunch Club**, which the data names `FoodService`
    SchoolLunchClub,
    /// **Pandemonium Society**, which the data names `PandemoniumSociety`
    PandemoniumSociety,
    /// **Remedial Knights**, which the data names `KnightsHospitaller`
    RemedialKnights,
    /// **Tea Party**, which the data names `TeaParty`
    TeaParty,
    /// **Hot Spring Club**, which the data names `HotSpringsDepartment`
    HotSpringsClub,
    /// A club that the library does not know, with its name as the data gave it.
    Unknown(String),
}

impl Club {
    /// The club that the data names `raw`, where the library knows that name.
    pub open spec fn known(raw: Seq<char>) -> Option<Club> {
        if raw == "Kohshinjo68"@ || raw == "Problem Solver 68"@ {
            Some(Club::ProblemSolver68)
        } else if raw == "SPTF"@ || raw == "Super Phenomenon Task Force"@ {
            Some(Club::SuperPhenomenonTaskForce)
        } else if raw == "GourmetClub"@ || raw == "Gourmet Research Society"@ {
            Some(Club::GourmetResearchSociety)
        } else if raw == "RemedialClass"@ || raw == "Make-Up Work Club"@ {
            Some(Club::MakeUpWorkClub)
        } else if raw == "Fuuki"@ || raw == "Prefect Team"@ {
            Some(Club::PrefectTeam)
        } else if raw == "Countermeasure"@ || raw == "Foreclosure Task Force"@ {
            Some(Club::ForeclosureTaskForce)
        } else if raw == "Veritas"@ {
            Some(Club::Veritas)
        } else if raw == "CleanNClearing"@ || raw == "Cleaning & Clearing"@ {
            Some(Club::CleaningAndClearing)
        } else if raw == "Meihuayuan"@ || raw == "Plum Blossom Garden"@ {
            Some(Club::PlumBlossomGarden)
        } else if raw == "TrainingClub"@ || raw == "Athletics Training Club"@ {
            Some(Club::AthleticsTrainingClub)
        } else if raw == "NinpoKenkyubu"@ || raw == "Ninjutsu Research Club"@ {
            Some(Club::NinjutsuResearchClub)
        } else if raw == "Justice"@ || raw == "Justice Task Force"@ {
            Some(Club::JusticeTaskForce)
        } else if raw == "GameDev"@ || raw == "Game Development Club"@ {
            Some(Club::GameDevelopmentClub)
        } else if raw == "RedwinterSecretary"@ || raw == "Red Winter Office"@ {
            Some(Club::RedWinterSecretary)
        } else if raw == "HoukagoDessert"@ || raw == "After-School Sweets Club"@ {
            Some(Club::AfterSchoolSweetsClub)
        } else if raw == "EmptyClub"@ || raw == "Unassigned"@ {
            Some(Club::Unassigned)
        } else if raw == "Shugyobu"@ || raw == "Inner Discipline Club"@ {
            Some(Club::InnerDisciplineClub)
        } else if raw == "BookClub"@ || raw == "Library Committee"@ {
            Some(Club::LibraryCommittee)
        } else if raw == "SisterHood"@ || raw == "Sisterhood"@ {
            Some(Club::Sisterhood)
        } else if raw == "RabbitPlatoon"@ || raw == "RABBIT Squad"@ {
            Some(Club::RABBITSquad)
        } else if raw == "AriusSqud"@ || raw == "Arius Squad"@ {
            Some(Club::AriusSquad)
        } else if raw == "Onmyobu"@ || raw == "Yin-Yang Club"@ {
            Some(Club::YinYangClub)
        } else if raw == "TheSeminar"@ || raw == "Seminar"@ {
            Some(Club::Seminar)
        } else if raw == "anzenkyoku"@ || raw == "Public Safety Bureau"@ {
            Some(Club::PublicSafetyBureau)
        } else if raw == "PublicPeaceBureau"@ || raw == "Public Peace Bureau"@ {
            Some(Club::PublicPeaceBureau)
        } else if raw == "Engineer"@ || raw == "Engineering Club"@ {
            Some(Club::EngineeringClub)
        } else if raw == "TrinityVigilance"@ || raw == "Trinity Vigilante Crew"@ {
            Some(Club::TrinityVigilanteCrew)
        } else if raw == "MatsuriOffice"@ || raw == "Festival Operations Department"@ {
            Some(Club::FestivalOperationsDepartment)
        } else if raw == "Endanbou"@ || raw == "Chinese Alchemy Study Club"@ {
            Some(Club::ChineseAlchemyStudyClub)
        } else if raw == "Class227"@ || raw == "Spec Ops #227"@ {
            Some(Club::SpecOpsNumber227)
        } else if raw == "Emergentology"@ || raw == "Medical Emergency Club"@ {
            Some(Club::MedicalEmergencyClub)
        } else if raw == "FoodService"@ || raw == "School Lunch Club"@ {
            Some(Club::SchoolLunchClub)
        } else if raw == "PandemoniumSociety"@ || raw == "Pandemonium Society"@ {
            Some(Club::PandemoniumSociety)
        } else if raw == "KnightsHospitaller"@ || raw == "Remedial Knights"@ {
            Some(Club::RemedialKnights)
        } else if raw == "TeaParty"@ || raw == "Tea Party"@ {
            Some(Club::TeaParty)
        } else if raw == "HotSpringsDepartment"@ || raw == "Hot Spring Club"@ {
            Some(Club::HotSpringsClub)
        } else {
            None
        }
    }

    /// Whether `self` is what the name `raw` stands for: the known club of that name, or,
    /// where the library knows none, the unknown club that carries exactly `raw`.
    pub open spec fn is_named(&self, raw: Seq<char>) -> bool {
        match Club::known(raw) {
            Some(found) => *self == found,
            None => *self matches Club::Unknown(text) && text@ == raw,
        }
    }

    /// Reads a club from the name that the data gives it. No name is refused: one that
    /// the library does not know comes back inside [`Club::Unknown`], unchanged.
    pub fn from_raw(raw: &str) -> (found: Club)
        ensures
            found.is_named(raw@),
    {
        if same_text(raw, "Kohshinjo68") || same_text(raw, "Problem Solver 68") {
            Club::ProblemSolver68
        } else if same_text(raw, "SPTF") || same_text(raw, "Super Phenomenon Task Force") {
            Club::SuperPhenomenonTaskForce
        } else if same_text(raw, "GourmetClub") || same_text(raw, "Gourmet Research Society") {
            Club::GourmetResearchSociety
        } else if same_text(raw, "RemedialClass") || same_text(raw, "Make-Up Work Club") {
            Club::MakeUpWorkClub
        } else if same_text(raw, "Fuuki") || same_text(raw, "Prefect Team") {
            Club::PrefectTeam
        } else if same_text(raw, "Countermeasure") || same_text(raw, "Foreclosure Task Force") {
            Club::ForeclosureTaskForce
        } else if same_text(raw, "Veritas") {
            Club::Veritas
        } else if same_text(raw, "CleanNClearing") || same_text(raw, "Cleaning & Clearing") {
            Club::CleaningAndClearing
        } else if same_text(raw, "Meihuayuan") || same_text(raw, "Plum Blossom Garden") {
            Club::PlumBlossomGarden
        } else if same_text(raw, "TrainingClub") || same_text(raw, "Athletics Training Club") {
            Club::AthleticsTrainingClub
        } else if same_text(raw, "NinpoKenkyubu") || same_text(raw, "Ninjutsu Research Club") {
            Club::NinjutsuResearchClub
        } else if same_text(raw, "Justice") || same_text(raw, "Justice Task Force") {
            Club::JusticeTaskForce
        } else if same_text(raw, "GameDev") || same_text(raw, "Game Development Club") {
            Club::GameDevelopmentClub
        } else if same_text(raw, "RedwinterSecretary") || same_text(raw, "Red Winter Office") {
            Club::RedWinterSecretary
        } else if same_text(raw, "HoukagoDessert") || same_text(raw, "After-School Sweets Club") {
            Club::AfterSchoolSweetsClub
        } else if same_text(raw, "EmptyClub") || same_text(raw, "Unassigned") {
            Club::Unassigned
        } else if same_text(raw, "Shugyobu") || same_text(raw, "Inner Discipline Club") {
            Club::InnerDisciplineClub
        } else if same_text(raw, "BookClub") || same_text(raw, "Library Committee") {
            Club::LibraryCommittee
        } else if same_text(raw, "SisterHood") || same_text(raw, "Sisterhood") {
            Club::Sisterhood
        } else if same_text(raw, "RabbitPlatoon") || same_text(raw, "RABBIT Squad") {
            Club::RABBITSquad
        } else if same_text(raw, "AriusSqud") || same_text(raw, "Arius Squad") {
            Club::AriusSquad
        } else if same_text(raw, "Onmyobu") || same_text(raw, "Yin-Yang Club") {
            Club::YinYangClub
        } else if same_text(raw, "TheSeminar") || same_text(raw, "Seminar") {
            Club::Seminar
        } else if same_text(raw, "anzenkyoku") || same_text(raw, "Public Safety Bureau") {
            Club::PublicSafetyBureau
        } else if same_text(raw, "PublicPeaceBureau") || same_text(raw, "Public Peace Bureau") {
            Club::PublicPeaceBureau
        } else if same_text(raw, "Engineer") || same_text(raw, "Engineering Club") {
            Club::EngineeringClub
        } else if same_text(raw, "TrinityVigilance") || same_text(raw, "Trinity Vigilante Crew") {
            Club::TrinityVigilanteCrew
        } else if same_text(raw, "MatsuriOffice") || same_text(raw, "Festival Operations Department") {
            Club::FestivalOperationsDepartment
        } else if same_text(raw, "Endanbou") || same_text(raw, "Chinese Alchemy Study Club") {
            Club::ChineseAlchemyStudyClub
        } else if same_text(raw, "Class227") || same_text(raw, "Spec Ops #227") {
            Club::SpecOpsNumber227
        } else if same_text(raw, "Emergentology") || same_text(raw, "Medical Emergency Club") {
            Club::MedicalEmergencyClub
        } else if same_text(raw, "FoodService") || same_text(raw, "School Lunch Club") {
            Club::SchoolLunchClub
        } else if same_text(raw, "PandemoniumSociety") || same_text(raw, "Pandemonium Society") {
            Club::PandemoniumSociety
        } else if same_text(raw, "KnightsHospitaller") || same_text(raw, "Remedial Knights") {
            Club::RemedialKnights
        } else if same_text(raw, "TeaParty") || same_text(raw, "Tea Party") {
            Club::TeaParty
        } else if same_text(raw, "HotSpringsDepartment") || same_text(raw, "Hot Spring Club") {
            Club::HotSpringsClub
        } else {
            Club::Unknown(raw.to_owned())
        }
    }

    /// The text under which the library shows the club.
    pub open spec fn label(&self) -> Seq<char> {
        match self {
            Club::ProblemSolver68 => "Problem Solver 68"@,
            Club::SuperPhenomenonTaskForce => "Super Phenomenon Task Force"@,
            Club::GourmetResearchSociety => "Gourmet Research Society"@,
            Club::MakeUpWorkClub => "Make-Up Work Club"@,
            Club::PrefectTeam => "Prefect Team"@,
            Club::ForeclosureTaskForce => "Foreclosure Task Force"@,
            Club::Veritas => "Veritas"@,
            Club::CleaningAndClearing => "Cleaning & Clearing"@,
            Club::PlumBlossomGarden => "Plum Blossom Garden"@,
            Club::AthleticsTrainingClub => "Athletics Training Club"@,
            Club::NinjutsuResearchClub => "Ninjutsu Research Club"@,
            Club::JusticeTaskForce => "Justice Task Force"@,
            Club::GameDevelopmentClub => "Game Development Club"@,
            Club::RedWinterSecretary => "Red Winter Office"@,
            Club::AfterSchoolSweetsClub => "After-School Sweets Club"@,
            Club::Unassigned => "Unassigned"@,
            Club::InnerDisciplineClub => "Inner Discipline Club"@,
            Club::LibraryCommittee => "Library Committee"@,
            Club::Sisterhood => "Sisterhood"@,
            Club::RABBITSquad => "RABBIT Squad"@,
            Club::AriusSquad => "Arius Squad"@,
            Club::YinYangClub => "Yin-Yang Club"@,
            Club::Seminar => "Seminar"@,
            Club::PublicSafetyBureau => "Public Safety Bureau"@,
            Club::PublicPeaceBureau => "Public Peace Bureau"@,
            Club::EngineeringClub => "Engineering Club"@,
            Club::TrinityVigilanteCrew => "Trinity Vigilante Crew"@,
            Club::FestivalOperationsDepartment => "Festival Operations Department"@,
            Club::ChineseAlchemyStudyClub => "Chinese Alchemy Study Club"@,
            Club::SpecOpsNumber227 => "Spec Ops #227"@,
            Club::MedicalEmergencyClub => "Medical Emergency Club"@,
            Club::SchoolLunchClub => "School Lunch Club"@,
            Club::PandemoniumSociety => "Pandemonium Society"@,
            Club::RemedialKnights => "Remedial Knights"@,
            Club::TeaParty => "Tea Party"@,
            Club::HotSpringsClub => "Hot Spring Club"@,
            Club::Unknown(_) => "Unknown"@,
        }
    }

    /// The club as text. An unknown club is shown as `Unknown`, whatever it carries.
    pub fn to_string(&self) -> (text: String)
        ensures
            text@ == self.label(),
    {
        match self {
            Club::ProblemSolver68 => "Problem Solver 68".to_owned(),
            Club::SuperPhenomenonTaskForce => "Super Phenomenon Task Force".to_owned(),
            Club::GourmetResearchSociety => "Gourmet Research Society".to_owned(),
            Club::MakeUpWorkClub => "Make-Up Work Club".to_owned(),
            Club::PrefectTeam => "Prefect Team".to_owned(),
            Club::ForeclosureTaskForce => "Foreclosure Task Force".to_owned(),
            Club::Veritas => "Veritas".to_owned(),
            Club::CleaningAndClearing => "Cleaning & Clearing".to_owned(),
            Club::PlumBlossomGarden => "Plum Blossom Garden".to_owned(),
            Club::AthleticsTrainingClub => "Athletics Training Club".to_owned(),
            Club::NinjutsuResearchClub => "Ninjutsu Research Club".to_owned(),
            Club::JusticeTaskForce => "Justice Task Force".to_owned(),
            Club::GameDevelopmentClub => "Game Development Club".to_owned(),
            Club::RedWinterSecretary => "Red Winter Office".to_owned(),
            Club::AfterSchoolSweetsClub => "After-School Sweets Club".to_owned(),
            Club::Unassigned => "Unassigned".to_owned(),
            Club::InnerDisciplineClub => "Inner Discipline Club".to_owned(),
            Club::LibraryCommittee => "Library Committee".to_owned(),
            Club::Sisterhood => "Sisterhood".to_owned(),
            Club::RABBITSquad => "RABBIT Squad".to_owned(),
            Club::AriusSquad => "Arius Squad".to_owned(),
            Club::YinYangClub => "Yin-Yang Club".to_owned(),
            Club::Seminar => "Seminar".to_owned(),
            Club::PublicSafetyBureau => "Public Safety Bureau".to_owned(),
            Club::PublicPeaceBureau => "Public Peace Bureau".to_owned(),
            Club::EngineeringClub => "Engineering Club".to_owned(),
            Club::TrinityVigilanteCrew => "Trinity Vigilante Crew".to_owned(),
            Club::FestivalOperationsDepartment => "Festival Operations Department".to_owned(),
            Club::ChineseAlchemyStudyClub => "Chinese Alchemy Study Club".to_owned(),
            Club::SpecOpsNumber227 => "Spec Ops #227".to_owned(),
            Club::MedicalEmergencyClub => "Medical Emergency Club".to_owned(),
            Club::SchoolLunchClub => "School Lunch Club".to_owned(),
            Club::PandemoniumSociety => "Pandemonium Society".to_owned(),
            Club::RemedialKnights => "Remedial Knights".to_owned(),
            Club::TeaParty => "Tea Party".to_owned(),
            Club::HotSpringsClub => "Hot Spring Club".to_owned(),
            Club::Unknown(_) => "Unknown".to_owned(),
        }
    }
}

impl Clone for Club {
    fn clone(&self) -> (copy: Club)
        ensures
            copy == *self,
    {
        match self {
            Club::ProblemSolver68 => Club::ProblemSolver68,
            Club::SuperPhenomenonTaskForce => Club::SuperPhenomenonTaskForce,
            Club::GourmetResearchSociety => Club::GourmetResearchSociety,
            Club::MakeUpWorkClub => Club::MakeUpWorkClub,
            Club::PrefectTeam => Club::PrefectTeam,
            Club::ForeclosureTaskForce => Club::ForeclosureTaskForce,
            Club::Veritas => Club::Veritas,
            Club::CleaningAndClearing => Club::CleaningAndClearing,
            Club::PlumBlossomGarden => Club::PlumBlossomGarden,
            Club::AthleticsTrainingClub => Club::AthleticsTrainingClub,
            Club::NinjutsuResearchClub => Club::NinjutsuResearchClub,
            Club::JusticeTaskForce => Club::JusticeTaskForce,
            Club::GameDevelopmentClub => Club::GameDevelopmentClub,
            Club::RedWinterSecretary => Club::RedWinterSecretary,
            Club::AfterSchoolSweetsClub => Club::AfterSchoolSweetsClub,
            Club::Unassigned => Club::Unassigned,
            Club::InnerDisciplineClub => Club::InnerDisciplineClub,
            Club::LibraryCommittee => Club::LibraryCommittee,
            Club::Sisterhood => Club::Sisterhood,
            Club::RABBITSquad => Club::RABBITSquad,
            Club::AriusSquad => Club::AriusSquad,
            Club::YinYangClub => Club::YinYangClub,
            Club::Seminar => Club::Seminar,
            Club::PublicSafetyBureau => Club::PublicSafetyBureau,
            Club::PublicPeaceBureau => Club::PublicPeaceBureau,
            Club::EngineeringClub => Club::EngineeringClub,
            Club::TrinityVigilanteCrew => Club::TrinityVigilanteCrew,
            Club::FestivalOperationsDepartment => Club::FestivalOperationsDepartment,
            Club::ChineseAlchemyStudyClub => Club::ChineseAlchemyStudyClub,
            Club::SpecOpsNumber227 => Club::SpecOpsNumber227,
            Club::MedicalEmergencyClub => Club::MedicalEmergencyClub,
            Club::SchoolLunchClub => Club::SchoolLunchClub,
            Club::PandemoniumSociety => Club::PandemoniumSociety,
            Club::RemedialKnights => Club::RemedialKnights,
            Club::TeaParty => Club::TeaParty,
            Club::HotSpringsClub => Club::HotSpringsClub,
            Club::Unknown(text) => Club::Unknown(text.clone()),
        }
    }
}

impl PartialEq for Club {
    fn eq(&self, other: &Club) -> (equal: bool) {
        match (self, other) {
            (Club::ProblemSolver68, Club::ProblemSolver68) => true,
            (Club::SuperPhenomenonTaskForce, Club::SuperPhenomenonTaskForce) => true,
            (Club::GourmetResearchSociety, Club::GourmetResearchSociety) => true,
            (Club::MakeUpWorkClub, Club::MakeUpWorkClub) => true,
            (Club::PrefectTeam, Club::PrefectTeam) => true,
            (Club::ForeclosureTaskForce, Club::ForeclosureTaskForce) => true,
            (Club::Veritas, Club::Veritas) => true,
            (Club::CleaningAndClearing, Club::CleaningAndClearing) => true,
            (Club::PlumBlossomGarden, Club::PlumBlossomGarden) => true,
            (Club::AthleticsTrainingClub, Club::AthleticsTrainingClub) => true,
            (Club::NinjutsuResearchClub, Club::NinjutsuResearchClub) => true,
            (Club::JusticeTaskForce, Club::JusticeTaskForce) => true,
            (Club::GameDevelopmentClub, Club::GameDevelopmentClub) => true,
            (Club::RedWinterSecretary, Club::RedWinterSecretary) => true,
            (Club::AfterSchoolSweetsClub, Club::AfterSchoolSweetsClub) => true,
            (Club::Unassigned, Club::Unassigned) => true,
            (Club::InnerDisciplineClub, Club::InnerDisciplineClub) => true,
            (Club::LibraryCommittee, Club::LibraryCommittee) => true,
            (Club::Sisterhood, Club::Sisterhood) => true,
            (Club::RABBITSquad, Club::RABBITSquad) => true,
            (Club::AriusSquad, Club::AriusSquad) => true,
            (Club::YinYangClub, Club::YinYangClub) => true,
            (Club::Seminar, Club::Seminar) => true,
            (Club::PublicSafetyBureau, Club::PublicSafetyBureau) => true,
            (Club::PublicPeaceBureau, Club::PublicPeaceBureau) => true,
            (Club::EngineeringClub, Club::EngineeringClub) => true,
            (Club::TrinityVigilanteCrew, Club::TrinityVigilanteCrew) => true,
            (Club::FestivalOperationsDepartment, Club::FestivalOperationsDepartment) => true,
            (Club::ChineseAlchemyStudyClub, Club::ChineseAlchemyStudyClub) => true,
            (Club::SpecOpsNumber227, Club::SpecOpsNumber227) => true,
            (Club::MedicalEmergencyClub, Club::MedicalEmergencyClub) => true,
            (Club::SchoolLunchClub, Club::SchoolLunchClub) => true,
            (Club::PandemoniumSociety, Club::PandemoniumSociety) => true,
            (Club::RemedialKnights, Club::RemedialKnights) => true,
            (Club::TeaParty, Club::TeaParty) => true,
            (Club::HotSpringsClub, Club::HotSpringsClub) => true,
            (Club::Unknown(a), Club::Unknown(b)) => *a == *b,
            _ => false,
        }
    }
}

impl Eq for Club {}

/// Two values are equal when they are the same known club, or both unknown with the
/// same text.
impl vstd::std_specs::cmp::PartialEqSpecImpl for Club {
    open spec fn obeys_eq_spec() -> bool {
        true
    }

    open spec fn eq_spec(&self, other: &Club) -> bool {
        match (*self, *other) {
            (Club::Unknown(a), Club::Unknown(b)) => a@ == b@,
            (Club::Unknown(_), _) => false,
            (_, Club::Unknown(_)) => false,
            (a, b) => a == b,
        }
    }
}

/// An unknown club answers to one name only: the text it carries, and that only where
/// the library knows no club of that name. It answers to no name that the library
/// knows, and to no other text.
pub proof fn lemma_unknown_is_exact(text: String, raw: Seq<char>)
    ensures
        Club::Unknown(text).is_named(raw) <==> raw == text@ && Club::known(raw) is None,
{
}

/// A name stands for one club: two values that answer to the same name are equal.
pub proof fn lemma_one_name_one_value(first: Club, second: Club, raw: Seq<char>)
    requires
        first.is_named(raw),
        second.is_named(raw),
    ensures
        first.eq_spec(&second),
{
}

} // verus!
