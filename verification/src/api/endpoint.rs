//! The addresses under which the data is to be had.

use vstd::prelude::*;
use vstd::string::StringExecFns;
use crate::DATA_URI;
use crate::api::query::{labels, Query, StudentQuery, StudentQueryBuilder};
use crate::enums::Language;
use crate::text::{decimal, decimal_text, optional_text};

verus! {

/// A file of the published data.
#[derive(Debug, Clone, Copy, PartialEq, Eq, Structural)]
pub enum Endpoint {
    _Furniture,
    _Items,
    _Localization,
    Enemies,
    Equipment,
    Currency,
    Raids,
    Students,
    Summons,
}

impl Endpoint {
    /// The name of the file, without its ending: the name of the endpoint in lower case.
    pub open spec fn file_stem(&self) -> Seq<char> {
        match self {
            Endpoint::_Furniture => "_furniture"@,
            Endpoint::_Items => "_items"@,
            Endpoint::_Localization => "_localization"@,
            Endpoint::Enemies => "enemies"@,
            Endpoint::Equipment => "equipment"@,
            Endpoint::Currency => "currency"@,
            Endpoint::Raids => "raids"@,
            Endpoint::Students => "students"@,
            Endpoint::Summons => "summons"@,
        }
    }

    /// The address of the file in a language:
    /// [`DATA_URI`]`/`*language*`/`*file*`.json`.
    pub open spec fn spec_url(&self, language: Language) -> Seq<char> {
        DATA_URI@ + "/"@ + language.spec_id() + "/"@ + self.file_stem() + ".json"@
    }

    /// The address of the file in a language, such as
    /// `https://raw.githubusercontent.com/lonqie/SchaleDB/main/data/en/students.json`.
    pub fn url(&self, language: &Language) -> (url: String)
        ensures
            url@ == self.spec_url(*language),
    {
        let stem = match self {
            Endpoint::_Furniture => "_furniture",
            Endpoint::_Items => "_items",
            Endpoint::_Localization => "_localization",
            Endpoint::Enemies => "enemies",
            Endpoint::Equipment => "equipment",
            Endpoint::Currency => "currency",
            Endpoint::Raids => "raids",
            Endpoint::Students => "students",
            Endpoint::Summons => "summons",
        };
        let mut url = DATA_URI.to_owned();
        url.append("/");
        url.append(language.id().as_str());
        url.append("/");
        url.append(stem);
        url.append(".json");
        url
    }
}

/// Which students to ask the query service for: the one of a name, or those that
/// meet every one of some conditions.
#[derive(Debug)]
pub enum CharacterNameOrQuery {
    Name(String),
    Query(Vec<Query>),
}

impl CharacterNameOrQuery {
    /// How the choice is written in an address: the name, or `query?` and the
    /// conditions with `&` between them.
    pub open spec fn label(&self) -> Seq<char> {
        match self {
            CharacterNameOrQuery::Name(name) => name@,
            CharacterNameOrQuery::Query(queries) => "query?"@ + labels(queries@),
        }
    }

    /// The choice as a written query.
    pub fn into_query(self) -> (query: StudentQuery)
        ensures
            query.0@ == self.label(),
    {
        match self {
            CharacterNameOrQuery::Name(name) => StudentQueryBuilder::new().build_with_student_name(
                name,
            ),
            CharacterNameOrQuery::Query(queries) => StudentQueryBuilder::new().build_with_multiple(
                queries,
            ),
        }
    }
}

/// Which piece of equipment to ask the query service for: by identifier or by name.
#[derive(Debug)]
pub enum EquipmentIDOrName {
    ID(u32),
    Name(String),
}

impl EquipmentIDOrName {
    /// How the choice is written in an address: the name, or the identifier followed
    /// by `?id=true`.
    pub open spec fn label(&self) -> Seq<char> {
        match self {
            EquipmentIDOrName::ID(id) => decimal(*id as nat) + "?id=true"@,
            EquipmentIDOrName::Name(name) => name@,
        }
    }
}

/// What the query service can be asked for.
#[derive(Debug)]
pub enum Endpoints {
    /// Whether the service is up.
    Status,
    /// Students: those that the choice names, or all of them, in short form, where
    /// there is no choice.
    Character(Option<CharacterNameOrQuery>),
    /// A piece of equipment.
    Equipment(EquipmentIDOrName),
    /// Stages. The service has no address for them.
    Stage,
    /// Raids.
    Raid,
    /// Banners.
    Banner,
}

impl Endpoints {
    /// The address of the query service.
    pub open spec fn service() -> Seq<char> {
        "https://api.ennead.cc/buruaka/"@
    }

    /// What follows the address of the service.
    pub open spec fn spec_path(&self) -> Seq<char> {
        match self {
            Endpoints::Status => Seq::empty(),
            Endpoints::Character(Some(choice)) => "character/"@ + choice.label(),
            Endpoints::Character(None) => "character/"@,
            Endpoints::Equipment(choice) => "equipment/"@ + choice.label(),
            Endpoints::Stage => Seq::empty(),
            Endpoints::Raid => "raid"@,
            Endpoints::Banner => "banner"@,
        }
    }

    /// What follows the address of the service. Stages have no address: do not ask
    /// for theirs.
    pub fn path(self) -> (path: String)
        requires
            !(self is Stage),
        ensures
            path@ == self.spec_path(),
    {
        match self {
            Endpoints::Status => String::new(),
            Endpoints::Character(Some(choice)) => {
                let query = choice.into_query();
                "character/".to_owned().concat(query.0.as_str())
            },
            Endpoints::Character(None) => "character/".to_owned(),
            Endpoints::Equipment(EquipmentIDOrName::ID(id)) => {
                let mut path = "equipment/".to_owned();
                path.append(decimal_text(id).as_str());
                path.append("?id=true");
                path
            },
            Endpoints::Equipment(EquipmentIDOrName::Name(name)) => "equipment/".to_owned().concat(
                name.as_str(),
            ),
            Endpoints::Stage => String::new(),
            Endpoints::Raid => "raid".to_owned(),
            Endpoints::Banner => "banner".to_owned(),
        }
    }

    /// The whole address to fetch: that of the service, and the path behind it.
    pub fn url(self) -> (url: String)
        requires
            !(self is Stage),
        ensures
            url@ == Endpoints::service() + self.spec_path(),
    {
        let path = self.path();
        "https://api.ennead.cc/buruaka/".to_owned().concat(path.as_str())
    }

    /// The whole address to fetch, or none where the service has no address for
    /// what is asked.
    pub fn checked_url(self) -> (url: Option<String>)
        ensures
            optional_text(url) == if self is Stage {
                None
            } else {
                Some(Endpoints::service() + self.spec_path())
            },
    {
        match self {
            Endpoints::Stage => None,
            other => Some(other.url()),
        }
    }
}

} // verus!
