//! [`Language`]: the languages in which the data is published.

use vstd::prelude::*;

verus! {

/// A language in which the data is published.
#[derive(Debug, Clone, Copy, PartialEq, Eq, Structural)]
pub enum Language {
    English,
    Chinese,
    Japanese,
    Korean,
    Thai,
    Taiwanese,
    Vietnamese,
}

impl Language {
    /// The name of the language in English.
    pub open spec fn label(&self) -> Seq<char> {
        match self {
            Language::English => "English"@,
            Language::Chinese => "Chinese"@,
            Language::Japanese => "Japanese"@,
            Language::Korean => "Korean"@,
            Language::Thai => "Thai"@,
            Language::Taiwanese => "Taiwanese"@,
            Language::Vietnamese => "Vietnamese"@,
        }
    }

    /// The language as text: its name in English.
    pub fn to_string(&self) -> (text: String)
        ensures
            text@ == self.label(),
    {
        match self {
            Language::English => "English".to_owned(),
            Language::Chinese => "Chinese".to_owned(),
            Language::Japanese => "Japanese".to_owned(),
            Language::Korean => "Korean".to_owned(),
            Language::Thai => "Thai".to_owned(),
            Language::Taiwanese => "Taiwanese".to_owned(),
            Language::Vietnamese => "Vietnamese".to_owned(),
        }
    }

    /// What [`Language::id`] returns.
    pub open spec fn spec_id(&self) -> Seq<char> {
        match self {
            Language::English => "en"@,
            Language::Chinese => "cn"@,
            Language::Japanese => "jp"@,
            Language::Korean => "kr"@,
            Language::Thai => "th"@,
            Language::Taiwanese => "tw"@,
            Language::Vietnamese => "vi"@,
        }
    }

    /// The two letters by which the data names the language: `en`, `tw`, `kr` and so on.
    pub fn id(&self) -> (text: String)
        ensures
            text@ == self.spec_id(),
    {
        match self {
            Language::English => "en".to_owned(),
            Language::Chinese => "cn".to_owned(),
            Language::Japanese => "jp".to_owned(),
            Language::Korean => "kr".to_owned(),
            Language::Thai => "th".to_owned(),
            Language::Taiwanese => "tw".to_owned(),
            Language::Vietnamese => "vi".to_owned(),
        }
    }
}

} // verus!
