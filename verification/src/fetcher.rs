//! [`StudentFetcher`]: a list of students held in memory, to be searched, drawn from
//! and filtered.

use vstd::prelude::*;
use rand::seq::SliceRandom;
use crate::filter::{Narrowing, StudentFilterOptions};
use crate::text::lowercase;
use crate::types::rows::clone_records;
use crate::types::{Student, StudentView};

verus! {

impl StudentView {
    /// Whether the student answers to `name`: whether `name` is, letter case aside,
    /// the name that the data shows, the personal name, the family name, or both
    /// with a space between them, in either order.
    pub open spec fn answers_to(self, name: Seq<char>) -> bool {
        let wanted = lowercase(name);
        ||| wanted == lowercase(self.name)
        ||| wanted == lowercase(self.personal_name)
        ||| wanted == lowercase(self.family_name)
        ||| wanted == lowercase(self.full_name_last())
        ||| wanted == lowercase(self.full_name_first())
    }
}

/// Whether `place` is where the first student that passes `test` stands in `students`.
pub open spec fn is_first(
    students: Seq<StudentView>,
    test: spec_fn(StudentView) -> bool,
    place: int,
) -> bool {
    &&& 0 <= place < students.len()
    &&& test(students[place])
    &&& forall|earlier: int| 0 <= earlier < place ==> !test(#[trigger] students[earlier])
}

/// Whether no student of `students` passes `test`.
pub open spec fn none_passes(students: Seq<StudentView>, test: spec_fn(StudentView) -> bool) -> bool {
    forall|place: int| 0 <= place < students.len() ==> !test(#[trigger] students[place])
}

/// Whether `picked` is a draw from `students` without repetition: whether each
/// picked student stands in `students`, and no place of `students` was picked twice.
pub open spec fn is_draw(picked: Seq<&Student>, students: Seq<Student>) -> bool {
    exists|places: Seq<int>|
        {
            &&& places.len() == picked.len()
            &&& places.no_duplicates()
            &&& forall|k: int|
                0 <= k < picked.len() ==> 0 <= #[trigger] places[k] < students.len()
                    && *picked[k] == students[places[k]]
        }
}

/// One student of `students`, picked at random; none where there is no student.
///
/// Trusted: wraps `SliceRandom::choose` of the crate `rand` with the generator of
/// the thread (`rand::thread_rng`). It returns `None` for an empty slice and else a
/// reference to an element of the slice. Which element is left open. (`thread_rng`
/// fails where the operating system can give it no seed.)
#[verifier::external_body]
fn choose_one<'a>(students: &'a [Student]) -> (picked: Option<&'a Student>)
    ensures
        students@.len() == 0 ==> picked is None,
        students@.len() > 0 ==> picked is Some && students@.contains(*picked.unwrap()),
{
    students.choose(&mut rand::thread_rng())
}

/// `amount` students of `students`, picked at random without repetition and in
/// random order; all of them where there are fewer than `amount`.
///
/// Trusted: wraps `SliceRandom::choose_multiple` of the crate `rand` with the
/// generator of the thread. It draws `min(amount, len)` distinct places of the
/// slice and gives a reference to the element at each. Which places, and in which
/// order, is left open. For a slice of more than `u32::MAX` elements `rand` takes
/// for granted that fewer elements are asked for than there are, and checks it
/// where it was built with its checks on: the wrapper is not for that case.
#[verifier::external_body]
fn choose_several<'a>(students: &'a [Student], amount: usize) -> (picked: Vec<&'a Student>)
    requires
        students@.len() <= u32::MAX || amount < students@.len(),
    ensures
        picked@.len() == if amount <= students@.len() {
            amount as int
        } else {
            students@.len() as int
        },
        is_draw(picked@, students@),
{
    students.choose_multiple(&mut rand::thread_rng(), amount).collect()
}

/// Every student of `students`, in their order.
fn every_one<'a>(students: &'a [Student]) -> (picked: Vec<&'a Student>)
    ensures
        picked@.len() == students@.len(),
        is_draw(picked@, students@),
{
    let mut picked: Vec<&'a Student> = Vec::new();
    let mut at: usize = 0;
    while at < students.len()
        invariant
            at <= students.len(),
            picked@.len() == at,
            forall|k: int| 0 <= k < at ==> *picked@[k] == students@[k],
        decreases students.len() - at,
    {
        picked.push(&students[at]);
        at += 1;
    }
    proof {
        let places = Seq::new(picked@.len(), |k: int| k);
        assert(places.no_duplicates());
        assert(forall|k: int|
            0 <= k < picked@.len() ==> 0 <= #[trigger] places[k] < students@.len() && *picked@[k]
                == students@[places[k]]);
    }
    picked
}

/// The first student of `students` that answers to `name`
/// ([`StudentView::answers_to`]); none where no student does.
pub fn find_student_by_name<'a>(students: &'a [Student], name: &str) -> (found: Option<
    &'a Student,
>)
    ensures
        match found {
            Some(student) => exists|place: int|
                is_first(
                    students.deep_view(),
                    |student: StudentView| student.answers_to(name@),
                    place,
                ) && student@ == #[trigger] students.deep_view()[place],
            None => none_passes(
                students.deep_view(),
                |student: StudentView| student.answers_to(name@),
            ),
        },
{
    let wanted = name.to_lowercase();
    let ghost test = |student: StudentView| student.answers_to(name@);
    let mut at: usize = 0;
    while at < students.len()
        invariant
            at <= students.len(),
            wanted@ == lowercase(name@),
            test == |student: StudentView| student.answers_to(name@),
            forall|earlier: int| 0 <= earlier < at ==> !test(#[trigger] students.deep_view()[earlier]),
        decreases students.len() - at,
    {
        let student = &students[at];
        let full_name_last = student.full_name_last();
        let full_name_first = student.full_name_first();
        let answers = wanted == student.name.to_lowercase()
            || wanted == student.personal_name.to_lowercase()
            || wanted == student.family_name.to_lowercase()
            || wanted == full_name_last.to_lowercase()
            || wanted == full_name_first.to_lowercase();
        if answers {
            assert(is_first(students.deep_view(), test, at as int));
            return Some(student);
        }
        at += 1;
    }
    None
}

/// A list of students held in memory.
#[derive(Debug)]
pub struct StudentFetcher {
    /// The students, in the order of the data.
    pub students: Vec<Student>,
}

impl Clone for StudentFetcher {
    fn clone(&self) -> (copy: StudentFetcher)
        ensures
            copy.students.deep_view() == self.students.deep_view(),
    {
        StudentFetcher { students: clone_records(&self.students) }
    }
}

impl StudentFetcher {
    /// Holds the students that were fetched.
    pub fn new(students: Vec<Student>) -> (fetcher: Self)
        ensures
            fetcher.students == students,
    {
        StudentFetcher { students }
    }

    /// The student of a name: the first of the list that answers to it, letter case
    /// aside. A student answers to the name that the data shows (which may carry a
    /// tag, as in `Iori (Swimsuit)`), to the personal name, to the family name, and
    /// to both with a space between them, in either order.
    pub fn get_student_by_name(&self, name: &str) -> (found: Option<&Student>)
        ensures
            match found {
                Some(student) => exists|place: int|
                    is_first(
                        self.students.deep_view(),
                        |student: StudentView| student.answers_to(name@),
                        place,
                    ) && student@ == #[trigger] self.students.deep_view()[place],
                None => none_passes(
                    self.students.deep_view(),
                    |student: StudentView| student.answers_to(name@),
                ),
            },
    {
        let students = self.students.as_slice();
        assert(students.deep_view() =~= self.students.deep_view());
        find_student_by_name(students, name)
    }

    /// A copy of the student with an identifier: of the first of the list that bears
    /// it; none where no student does.
    pub fn get_student_by_id(&self, id: u32) -> (found: Option<Student>)
        ensures
            match found {
                Some(student) => exists|place: int|
                    is_first(
                        self.students.deep_view(),
                        |student: StudentView| student.id.0 == id,
                        place,
                    ) && student@ == #[trigger] self.students.deep_view()[place],
                None => none_passes(
                    self.students.deep_view(),
                    |student: StudentView| student.id.0 == id,
                ),
            },
    {
        let ghost test = |student: StudentView| student.id.0 == id;
        let mut at: usize = 0;
        while at < self.students.len()
            invariant
                at <= self.students.len(),
                test == |student: StudentView| student.id.0 == id,
                forall|earlier: int|
                    0 <= earlier < at ==> !test(#[trigger] self.students.deep_view()[earlier]),
            decreases self.students.len() - at,
        {
            if self.students[at].id.0 == id {
                assert(is_first(self.students.deep_view(), test, at as int));
                return Some(self.students[at].clone());
            }
            at += 1;
        }
        None
    }

    /// A student of the list, picked at random; none where the list is empty.
    pub fn get_random_student(&self) -> (picked: Option<&Student>)
        ensures
            self.students@.len() == 0 <==> picked is None,
            picked matches Some(student) ==> self.students@.contains(*student),
    {
        choose_one(self.students.as_slice())
    }

    /// `amount` students of the list, picked at random, none of them twice, in random
    /// order. Where the list holds no more than `amount`, all of them. (All of a list
    /// of more than `u32::MAX` students come in the order of the list.)
    pub fn get_random_students(&self, amount: usize) -> (picked: Vec<&Student>)
        ensures
            picked@.len() == if amount <= self.students@.len() {
                amount as int
            } else {
                self.students@.len() as int
            },
            is_draw(picked@, self.students@),
    {
        let students = self.students.as_slice();
        if amount >= students.len() && students.len() > u32::MAX as usize {
            every_one(students)
        } else {
            choose_several(students, amount)
        }
    }

    /// Starts a chain of filters over the list.
    pub fn filter(&self) -> (chain: StudentFilterOptions<'_>)
        ensures
            chain@ == Narrowing::over(self.students.deep_view()),
            chain@.wf(),
    {
        StudentFilterOptions::new(&self.students)
    }
}

} // verus!
