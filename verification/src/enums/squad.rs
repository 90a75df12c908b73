//! [`Squad`]: a squad as the data names it, and as the library shows it.

use vstd::prelude::*;
use vstd::std_specs::cmp::PartialEqSpec;
use crate::text::same_text;

verus! {

/// The squad a student fights in: **Main** (striker) or **Support** (special).
///
/// A squad that the data names and the library does not know is kept as
/// [`Squad::Unknown`], with the name as the data gave it.
#[derive(Debug)]
pub enum Squad {
    Main,
    Support,
    /// A squad that the library does not know, with its name as the data gave it.
    Unknown(String),
}

impl Squad {
    /// The squad that the data names `raw`, where the library knows that name.
    pub open spec fn known(raw: Seq<char>) -> Option<Squad> {
        if raw == "Main"@ {
            Some(Squad::Main)
        } else if raw == "Support"@ {
            Some(Squad::Support)
        } else {
            None
        }
    }

    /// Whether `self` is what the name `raw` stands for: the known squad of that name, or,
    /// where the library knows none, the unknown squad that carries exactly `raw`.
    pub open spec fn is_named(&self, raw: Seq<char>) -> bool {
        match Squad::known(raw) {
            Some(found) => *self == found,
            None => *self matches Squad::Unknown(text) && text@ == raw,
        }
    }

    /// Reads a squad from the name that the data gives it. No name is refused: one that
    /// the library does not know comes back inside [`Squad::Unknown`], unchanged.
    pub fn from_raw(raw: &str) -> (found: Squad)
        ensures
            found.is_named(raw@),
    {
        if same_text(raw, "Main") {
            Squad::Main
        } else if same_text(raw, "Support") {
            Squad::Support
        } else {
            Squad::Unknown(raw.to_owned())
        }
    }

    /// The text under which the library shows the squad.
    pub open spec fn label(&self) -> Seq<char> {
        match self {
            Squad::Main => "Main"@,
            Squad::Support => "Support"@,
            Squad::Unknown(_) => "Unknown"@,
        }
    }

    /// The squad as text. An unknown squad is shown as `Unknown`, whatever it carries.
    pub fn to_string(&self) -> (text: String)
        ensures
            text@ == self.label(),
    {
        match self {
            Squad::Main => "Main".to_owned(),
            Squad::Support => "Support".to_owned(),
            Squad::Unknown(_) => "Unknown".to_owned(),
        }
    }

    /// What [`Squad::alt_name`] returns.
    pub open spec fn spec_alt_name(&self) -> Seq<char> {
        match self {
            Squad::Main => "Striker"@,
            Squad::Support => "Special"@,
            Squad::Unknown(text) => text@,
        }
    }

    /// The other name by which players know the squad: **Main** is Striker, **Support** is
    /// Special; for an unknown squad, the name as the data gave it.
    pub fn alt_name(&self) -> (text: String)
        ensures
            text@ == self.spec_alt_name(),
    {
        match self {
            Squad::Main => "Striker".to_owned(),
            Squad::Support => "Special".to_owned(),
            Squad::Unknown(text) => text.clone(),
        }
    }
}

impl Clone for Squad {
    fn clone(&self) -> (copy: Squad)
        ensures
            copy == *self,
    {
        match self {
            Squad::Main => Squad::Main,
            Squad::Support => Squad::Support,
            Squad::Unknown(text) => Squad::Unknown(text.clone()),
        }
    }
}

impl PartialEq for Squad {
    fn eq(&self, other: &Squad) -> (equal: bool) {
        match (self, other) {
            (Squad::Main, Squad::Main) => true,
            (Squad::Support, Squad::Support) => true,
            (Squad::Unknown(a), Squad::Unknown(b)) => *a == *b,
            _ => false,
        }
    }
}

impl Eq for Squad {}

/// Two values are equal when they are the same known squad, or both unknown with the
/// same text.
impl vstd::std_specs::cmp::PartialEqSpecImpl for Squad {
    open spec fn obeys_eq_spec() -> bool {
        true
    }

    open spec fn eq_spec(&self, other: &Squad) -> bool {
        match (*self, *other) {
            (Squad::Unknown(a), Squad::Unknown(b)) => a@ == b@,
            (Squad::Unknown(_), _) => false,
            (_, Squad::Unknown(_)) => false,
            (a, b) => a == b,
        }
    }
}

/// An unknown squad answers to one name only: the text it carries, and that only where
/// the library knows no squad of that name. It answers to no name that the library
/// knows, and to no other text.
pub proof fn lemma_unknown_is_exact(text: String, raw: Seq<char>)
    ensures
        Squad::Unknown(text).is_named(raw) <==> raw == text@ && Squad::known(raw) is None,
{
}

/// A name stands for one squad: two values that answer to the same name are equal.
pub proof fn lemma_one_name_one_value(first: Squad, second: Squad, raw: Seq<char>)
    requires
        first.is_named(raw),
        second.is_named(raw),
    ensures
        first.eq_spec(&second),
{
}

} // verus!
