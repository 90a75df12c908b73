//! [`StudentFilter`], the filters that the library brings, and
//! [`StudentFilterOptions`], the chain that applies filters in turn.

use vstd::prelude::*;
use crate::enums::{Armor, BulletType, Club, Position, School, Squad, TacticalRole, WeaponType};
use vstd::std_specs::cmp::PartialEqSpec;
use crate::filter::narrowing::{is_among, lemma_apply_narrows, lemma_exclusive_filters, Narrowing};
use crate::types::{Age, Released, Student, StudentView, ID};

verus! {

/// A test on students: a value that lets some students through and holds back the
/// others.
///
/// Whether a student is let through depends on what the student record holds,
/// and on nothing else: [`StudentFilter::accepts`] says which students are.
pub trait StudentFilter {
    /// Whether the filter lets a student that holds this through.
    spec fn accepts(&self, student: StudentView) -> bool;

    /// The students of `students` that the filter lets through, in the order in which
    /// they stand there. Never fails: where no student passes, the result is empty.
    fn filter<'a>(&self, students: &'a [Student]) -> (found: Vec<&'a Student>)
        ensures
            found.deep_view() == students.deep_view().filter(
                |student: StudentView| self.accepts(student),
            ),
    ;
}

/// The students of `students` that pass `test`, in their order.
fn select<'a, T: Fn(&Student) -> bool>(
    students: &'a [Student],
    test: T,
    Ghost(accepts): Ghost<spec_fn(StudentView) -> bool>,
) -> (found: Vec<&'a Student>)
    requires
        forall|student: &Student| call_requires(test, (student,)),
        forall|student: &Student, passes: bool|
            call_ensures(test, (student,), passes) ==> passes == accepts(student@),
    ensures
        found.deep_view() == students.deep_view().filter(accepts),
{
    let mut found: Vec<&'a Student> = Vec::new();
    let mut at: usize = 0;
    proof {
        reveal(Seq::filter);
    }
    while at < students.len()
        invariant
            at <= students.len(),
            found.deep_view() == students.deep_view().take(at as int).filter(accepts),
            forall|student: &Student| call_requires(test, (student,)),
            forall|student: &Student, passes: bool|
                call_ensures(test, (student,), passes) ==> passes == accepts(student@),
        decreases students.len() - at,
    {
        let student = &students[at];
        let passes = test(student);
        if passes {
            found.push(student);
        }
        proof {
            let seen = students.deep_view().take(at as int);
            assert(students.deep_view().take(at + 1) =~= seen.push(student@));
            seen.lemma_filter_push(student@, accepts);
        }
        at += 1;
    }
    proof {
        assert(students.deep_view().take(at as int) =~= students.deep_view());
    }
    found
}

impl StudentFilter for Age {
    /// Whether the student is of this age; `Age(None)` lets through the students whose age the
    /// record does not give.
    open spec fn accepts(&self, student: StudentView) -> bool {
        student.age() == self.0
    }

    fn filter<'a>(&self, students: &'a [Student]) -> (found: Vec<&'a Student>) {
        let test = |student: &Student| -> (passes: bool)
            ensures
                passes == self.accepts(student@),
            { student.age() == *self };
        select(students, test, Ghost(|student: StudentView| self.accepts(student)))
    }
}

impl StudentFilter for Released {
    /// Whether the student is out in exactly these places.
    open spec fn accepts(&self, student: StudentView) -> bool {
        student.released() == *self
    }

    fn filter<'a>(&self, students: &'a [Student]) -> (found: Vec<&'a Student>) {
        let test = |student: &Student| -> (passes: bool)
            ensures
                passes == self.accepts(student@),
            { student.released() == *self };
        select(students, test, Ghost(|student: StudentView| self.accepts(student)))
    }
}

impl StudentFilter for ID {
    /// Whether the student bears this identifier.
    open spec fn accepts(&self, student: StudentView) -> bool {
        student.id == *self
    }

    fn filter<'a>(&self, students: &'a [Student]) -> (found: Vec<&'a Student>) {
        let test = |student: &Student| -> (passes: bool)
            ensures
                passes == self.accepts(student@),
            { student.id == *self };
        select(students, test, Ghost(|student: StudentView| self.accepts(student)))
    }
}

impl StudentFilter for School {
    /// Whether the student is of this school.
    open spec fn accepts(&self, student: StudentView) -> bool {
        self.is_named(student.school)
    }

    fn filter<'a>(&self, students: &'a [Student]) -> (found: Vec<&'a Student>) {
        let test = |student: &Student| -> (passes: bool)
            ensures
                passes == self.accepts(student@),
            { student.school() == *self };
        select(students, test, Ghost(|student: StudentView| self.accepts(student)))
    }
}

impl StudentFilter for TacticalRole {
    /// Whether the student plays this role.
    open spec fn accepts(&self, student: StudentView) -> bool {
        self.is_named(student.tactic_role)
    }

    fn filter<'a>(&self, students: &'a [Student]) -> (found: Vec<&'a Student>) {
        let test = |student: &Student| -> (passes: bool)
            ensures
                passes == self.accepts(student@),
            { student.tactical_role() == *self };
        select(students, test, Ghost(|student: StudentView| self.accepts(student)))
    }
}

impl StudentFilter for Squad {
    /// Whether the student fights in this squad.
    open spec fn accepts(&self, student: StudentView) -> bool {
        self.is_named(student.squad_type)
    }

    fn filter<'a>(&self, students: &'a [Student]) -> (found: Vec<&'a Student>) {
        let test = |student: &Student| -> (passes: bool)
            ensures
                passes == self.accepts(student@),
            { student.squad() == *self };
        select(students, test, Ghost(|student: StudentView| self.accepts(student)))
    }
}

impl StudentFilter for Armor {
    /// Whether the student wears this armor.
    open spec fn accepts(&self, student: StudentView) -> bool {
        self.is_named(student.armor_type)
    }

    fn filter<'a>(&self, students: &'a [Student]) -> (found: Vec<&'a Student>) {
        let test = |student: &Student| -> (passes: bool)
            ensures
                passes == self.accepts(student@),
            { student.armor() == *self };
        select(students, test, Ghost(|student: StudentView| self.accepts(student)))
    }
}

impl StudentFilter for Position {
    /// Whether the student stands at this position.
    open spec fn accepts(&self, student: StudentView) -> bool {
        self.is_named(student.position)
    }

    fn filter<'a>(&self, students: &'a [Student]) -> (found: Vec<&'a Student>) {
        let test = |student: &Student| -> (passes: bool)
            ensures
                passes == self.accepts(student@),
            { student.position() == *self };
        select(students, test, Ghost(|student: StudentView| self.accepts(student)))
    }
}

impl StudentFilter for BulletType {
    /// Whether the student shoots this type of bullet.
    open spec fn accepts(&self, student: StudentView) -> bool {
        self.is_named(student.bullet_type)
    }

    fn filter<'a>(&self, students: &'a [Student]) -> (found: Vec<&'a Student>) {
        let test = |student: &Student| -> (passes: bool)
            ensures
                passes == self.accepts(student@),
            { student.bullet_type() == *self };
        select(students, test, Ghost(|student: StudentView| self.accepts(student)))
    }
}

impl StudentFilter for Club {
    /// Whether the student belongs to this club.
    open spec fn accepts(&self, student: StudentView) -> bool {
        self.is_named(student.club)
    }

    fn filter<'a>(&self, students: &'a [Student]) -> (found: Vec<&'a Student>) {
        let test = |student: &Student| -> (passes: bool)
            ensures
                passes == self.accepts(student@),
            { student.club() == *self };
        select(students, test, Ghost(|student: StudentView| self.accepts(student)))
    }
}

impl StudentFilter for WeaponType {
    /// Whether the student carries this type of weapon.
    open spec fn accepts(&self, student: StudentView) -> bool {
        self.is_named(student.weapon_type)
    }

    fn filter<'a>(&self, students: &'a [Student]) -> (found: Vec<&'a Student>) {
        let test = |student: &Student| -> (passes: bool)
            ensures
                passes == self.accepts(student@),
            { student.weapon_type() == *self };
        select(students, test, Ghost(|student: StudentView| self.accepts(student)))
    }
}

/// Two different schools keep nobody: no student is of both, so a chain to which
/// both were applied gives no student.
pub proof fn lemma_two_schools_keep_nobody(chain: Narrowing, first: School, second: School)
    requires
        !first.eq_spec(&second),
    ensures
        chain.apply(|student: StudentView| first.accepts(student)).apply(
            |student: StudentView| second.accepts(student),
        ).result().len() == 0,
{
    assert forall|i: int| 0 <= i < chain.all.len() implies !(first.accepts(#[trigger] chain.all[i])
        && second.accepts(chain.all[i])) by {
        if first.accepts(chain.all[i]) && second.accepts(chain.all[i]) {
            crate::enums::school::lemma_one_name_one_value(first, second, chain.all[i].school);
        }
    }
    lemma_exclusive_filters(
        chain,
        |student: StudentView| first.accepts(student),
        |student: StudentView| second.accepts(student),
    );
}

/// Whether `student` is one of `students`.
fn holds(students: &Vec<&Student>, student: &Student) -> (found: bool)
    ensures
        found == students.deep_view().contains(student@),
{
    let mut at: usize = 0;
    while at < students.len()
        invariant
            at <= students.len(),
            forall|i: int| 0 <= i < at ==> students.deep_view()[i] != student@,
        decreases students.len() - at,
    {
        if *students[at] == *student {
            assert(students.deep_view()[at as int] == student@);
            return true;
        }
        at += 1;
    }
    false
}

/// The students of `candidates` that are also among `kept`, in the order of `candidates`.
fn retain_kept<'a>(candidates: Vec<&'a Student>, kept: &Vec<&'a Student>) -> (both: Vec<
    &'a Student,
>)
    ensures
        both.deep_view() == candidates.deep_view().filter(is_among(kept.deep_view())),
{
    let ghost among = is_among(kept.deep_view());
    let mut both: Vec<&'a Student> = Vec::new();
    let mut at: usize = 0;
    proof {
        reveal(Seq::filter);
    }
    while at < candidates.len()
        invariant
            at <= candidates.len(),
            among == is_among(kept.deep_view()),
            both.deep_view() == candidates.deep_view().take(at as int).filter(among),
        decreases candidates.len() - at,
    {
        let student = candidates[at];
        let stays = holds(kept, student);
        if stays {
            both.push(student);
        }
        proof {
            let seen = candidates.deep_view().take(at as int);
            assert(candidates.deep_view().take(at + 1) =~= seen.push(student@));
            seen.lemma_filter_push(student@, among);
        }
        at += 1;
    }
    proof {
        assert(candidates.deep_view().take(at as int) =~= candidates.deep_view());
    }
    both
}

/// A chain of filters over a list of students.
///
/// The chain is made over a list ([`StudentFilterOptions::new`]), takes any number
/// of filters ([`StudentFilterOptions::apply`]) and is then finished
/// ([`StudentFilterOptions::finish`], [`StudentFilterOptions::finish_ref`]). What
/// comes out are the students of the list that every filter lets through, in the
/// order of the list. **A chain to which no filter was applied gives the whole
/// list**, not an empty one.
///
/// [`Narrowing`] is the mathematical value of a chain, and says step by step
/// what a filter does to it.
#[derive(Debug)]
pub struct StudentFilterOptions<'s> {
    /// The students kept so far; `None` as long as no filter was applied.
    ///
    /// The chain itself only ever keeps students of its list, each where it stands
    /// there ([`Narrowing::wf`]). The field is open to writing; a chain whose field
    /// was written by hand still narrows as [`Narrowing::apply`] says, but may then
    /// keep more students after a filter than before.
    pub filtered_students: Option<Vec<&'s Student>>,
    /// The students that the chain was made over.
    slice: &'s [Student],
}

impl<'s> View for StudentFilterOptions<'s> {
    type V = Narrowing;

    closed spec fn view(&self) -> Narrowing {
        Narrowing {
            all: self.slice.deep_view(),
            kept: match self.filtered_students {
                Some(kept) => Some(kept.deep_view()),
                None => None,
            },
        }
    }
}

impl<'s> StudentFilterOptions<'s> {
    /// A chain over `students`, with no filter applied yet.
    pub fn new(students: &'s Vec<Student>) -> (chain: Self)
        ensures
            chain@ == Narrowing::over(students.deep_view()),
            chain@.wf(),
    {
        let slice = students.as_slice();
        StudentFilterOptions { filtered_students: None, slice }
    }

    fn apply_filter<F: StudentFilter>(&mut self, student_filter: F)
        ensures
            final(self)@ == old(self)@.apply(|student: StudentView| student_filter.accepts(student)),
    {
        let applied = student_filter.filter(self.slice);
        let narrowed = match &self.filtered_students {
            Some(filtered) => retain_kept(applied, filtered),
            None => applied,
        };
        self.filtered_students = Some(narrowed);
    }

    /// Applies a filter, and hands the chain back so that the next call can follow.
    ///
    /// The filter is put to every student of the list. Of those it lets through,
    /// the chain keeps the ones it had kept so far; the first filter keeps all that
    /// it lets through. A student is "one it had kept" when a kept student holds the
    /// same in every field.
    pub fn apply<F: StudentFilter>(self, student_filter: F) -> (chain: Self)
        ensures
            chain@ == self@.apply(|student: StudentView| student_filter.accepts(student)),
            self@.wf() ==> chain@.wf(),
            self@.wf() ==> chain@.result() == self@.result().filter(
                |student: StudentView| student_filter.accepts(student),
            ),
            self@.wf() ==> chain@.result().len() <= self@.result().len(),
    {
        let mut chain = self;
        chain.apply_filter(student_filter);
        proof {
            let accepts = |student: StudentView| student_filter.accepts(student);
            if self@.wf() {
                lemma_apply_narrows(self@, accepts);
                self@.result().lemma_filter_len(accepts);
            }
        }
        chain
    }

    /// Finishes the chain: a copy of each student that every applied filter lets
    /// through, in the order of the list. Where no filter was applied, that is a
    /// copy of every student of the list.
    pub fn finish(self) -> (students: Vec<Student>)
        ensures
            students.deep_view() == self@.result(),
    {
        let found = self.finish_ref();
        let mut students: Vec<Student> = Vec::new();
        let mut at: usize = 0;
        while at < found.len()
            invariant
                at <= found.len(),
                students.len() == at,
                forall|i: int| 0 <= i < at ==> students[i]@ == found[i]@,
            decreases found.len() - at,
        {
            students.push(found[at].clone());
            at += 1;
        }
        students
    }

    /// Finishes the chain: the students that every applied filter lets through, in
    /// the order of the list. Where no filter was applied, these are all the
    /// students of the list.
    pub fn finish_ref(self) -> (students: Vec<&'s Student>)
        ensures
            students.deep_view() == self@.result(),
    {
        match self.filtered_students {
            Some(kept) => kept,
            None => {
                let mut students: Vec<&'s Student> = Vec::new();
                let mut at: usize = 0;
                while at < self.slice.len()
                    invariant
                        at <= self.slice.len(),
                        students.len() == at,
                        forall|i: int| 0 <= i < at ==> *students[i] == self.slice[i],
                    decreases self.slice.len() - at,
                {
                    students.push(&self.slice[at]);
                    at += 1;
                }
                students
            },
        }
    }
}

} // verus!
