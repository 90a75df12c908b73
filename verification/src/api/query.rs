//! Queries for students: what to ask the query service for, and how it is written.

use vstd::prelude::*;
use vstd::string::StringExecFns;
use crate::enums::{Armor, BulletType, Position, School, Squad, TacticalRole, WeaponType};
use crate::text::{decimal, decimal_text, truth, truth_text};

verus! {

/// One condition on students that the query service understands.
#[derive(Debug)]
pub enum Query {
    /// Students who play this role.
    Role(TacticalRole),
    /// Students who fight in this squad.
    SquadType(Squad),
    /// Students of this school.
    School(School),
    /// Students who stand at this position.
    Position(Position),
    /// Students who carry this type of weapon.
    Weapon(WeaponType),
    /// Students who deal this type of damage.
    Damage(BulletType),
    /// Students who wear this armor.
    Armor(Armor),
    /// The student with this identifier.
    ID(u32),
    /// The students who are out, or those who are not.
    Released(bool),
}

impl Query {
    /// How the condition is written in an address.
    pub open spec fn label(&self) -> Seq<char> {
        match self {
            Query::Role(role) => "role="@ + role.label(),
            Query::SquadType(squad) => "type="@ + squad.label(),
            Query::School(school) => "school="@ + school.label(),
            Query::Position(position) => "position="@ + position.label(),
            Query::Weapon(weapon) => "weapon="@ + weapon.label(),
            Query::Damage(damage) => "damage="@ + damage.label(),
            Query::Armor(armor) => "heavy%20armor="@ + armor.label(),
            Query::ID(id) => decimal(*id as nat) + "?id=true"@,
            Query::Released(released) => "?released="@ + truth(*released),
        }
    }

    /// Whether the condition stands alone in an address, without `query?` before it:
    /// true of a condition on the identifier and of one on the release.
    pub open spec fn stands_alone(&self) -> bool {
        self is ID || self is Released
    }

    /// The condition as it is written in an address.
    pub fn to_string(&self) -> (text: String)
        ensures
            text@ == self.label(),
    {
        match self {
            Query::Role(role) => "role=".to_owned().concat(role.to_string().as_str()),
            Query::SquadType(squad) => "type=".to_owned().concat(squad.to_string().as_str()),
            Query::School(school) => "school=".to_owned().concat(school.to_string().as_str()),
            Query::Position(position) => "position=".to_owned().concat(
                position.to_string().as_str(),
            ),
            Query::Weapon(weapon) => "weapon=".to_owned().concat(weapon.to_string().as_str()),
            Query::Damage(damage) => "damage=".to_owned().concat(damage.to_string().as_str()),
            Query::Armor(armor) => "heavy%20armor=".to_owned().concat(armor.to_string().as_str()),
            Query::ID(id) => decimal_text(*id).concat("?id=true"),
            Query::Released(released) => "?released=".to_owned().concat(truth_text(*released)),
        }
    }
}

/// How several conditions are written in a row: each as [`Query::label`] writes it,
/// with `&` between one and the next.
pub open spec fn labels(queries: Seq<Query>) -> Seq<char>
    decreases queries.len(),
{
    if queries.len() == 0 {
        Seq::empty()
    } else if queries.len() == 1 {
        queries[0].label()
    } else {
        labels(queries.drop_last()) + "&"@ + queries.last().label()
    }
}

/// What a query for students is made of.
#[derive(Debug)]
pub enum QueryKind {
    /// The student of this name.
    Name(String),
    /// The students that meet one condition.
    Single(Query),
    /// The students that meet every one of several conditions.
    Multiple(Vec<Query>),
}

impl QueryKind {
    /// How the query is written in an address.
    pub open spec fn label(&self) -> Seq<char> {
        match self {
            QueryKind::Name(name) => name@,
            QueryKind::Single(query) => if query.stands_alone() {
                query.label()
            } else {
                "query?"@ + query.label()
            },
            QueryKind::Multiple(queries) => "query?"@ + labels(queries@),
        }
    }
}

/// A query for students, written out: the part of the address that follows
/// `character/`.
#[derive(Debug)]
pub struct StudentQuery(pub String);

impl StudentQuery {
    /// The query as text.
    pub fn to_string(&self) -> (text: String)
        ensures
            text@ == self.0@,
    {
        self.0.clone()
    }
}

/// Builds a [`StudentQuery`].
#[derive(Debug)]
pub struct StudentQueryBuilder {
    /// What to ask for; `None` asks for every student.
    pub kind: Option<QueryKind>,
    /// What is written where `kind` is `None`.
    pub query_string: String,
}

impl StudentQueryBuilder {
    /// A builder that, as it stands, asks for every student.
    pub fn new() -> (builder: Self)
        ensures
            builder.kind is None,
            builder.query_string@ == Seq::<char>::empty(),
    {
        StudentQueryBuilder { kind: None, query_string: String::new() }
    }

    /// The empty query, which asks for every student, whatever the builder holds.
    pub fn build_empty(self) -> (query: StudentQuery)
        ensures
            query.0@ == Seq::<char>::empty(),
    {
        StudentQuery(String::new())
    }

    /// The query for the student of this name.
    pub fn build_with_student_name(self, name: String) -> (query: StudentQuery)
        ensures
            query.0@ == name@,
    {
        let mut builder = self;
        builder.kind = Some(QueryKind::Name(name));
        builder.build()
    }

    /// The query for the students that meet one condition: the condition as
    /// [`Query::label`] writes it, after `query?` unless it is one on the identifier or
    /// on the release.
    pub fn build_with_single(self, query: Query) -> (built: StudentQuery)
        ensures
            built.0@ == QueryKind::Single(query).label(),
    {
        let mut builder = self;
        builder.kind = Some(QueryKind::Single(query));
        builder.build()
    }

    /// The query for the students that meet every one of `queries`: `query?` and the
    /// conditions with `&` between them.
    pub fn build_with_multiple(self, queries: Vec<Query>) -> (built: StudentQuery)
        ensures
            built.0@ == QueryKind::Multiple(queries).label(),
    {
        let mut builder = self;
        builder.kind = Some(QueryKind::Multiple(queries));
        builder.build()
    }

    /// What [`StudentQueryBuilder::build`] writes.
    pub open spec fn built(self) -> Seq<char> {
        match self.kind {
            Some(kind) => kind.label(),
            None => self.query_string@,
        }
    }

    /// Writes the query out: what `kind` asks for, or `query_string` where there is no
    /// `kind`.
    pub fn build(self) -> (query: StudentQuery)
        ensures
            query.0@ == self.built(),
    {
        match self.kind {
            Some(QueryKind::Single(query)) => {
                match query {
                    Query::ID(_) | Query::Released(_) => StudentQuery(query.to_string()),
                    _ => StudentQuery("query?".to_owned().concat(query.to_string().as_str())),
                }
            },
            Some(QueryKind::Multiple(queries)) => {
                let mut text = "query?".to_owned();
                let mut at: usize = 0;
                while at < queries.len()
                    invariant
                        at <= queries.len(),
                        text@ == "query?"@ + labels(queries@.take(at as int)),
                    decreases queries.len() - at,
                {
                    proof {
                        let seen = queries@.take(at + 1);
                        assert(seen.drop_last() =~= queries@.take(at as int));
                    }
                    if at > 0 {
                        text.append("&");
                    }
                    text.append(queries[at].to_string().as_str());
                    at += 1;
                }
                assert(queries@.take(at as int) =~= queries@);
                StudentQuery(text)
            },
            Some(QueryKind::Name(name)) => StudentQuery(name),
            None => StudentQuery(self.query_string),
        }
    }
}

} // verus!
