//! [`Narrowing`], the mathematical value of a chain of filters, and what holds of it.

use vstd::prelude::*;
use crate::types::StudentView;

verus! {

/// The test "is one of `students`".
pub open spec fn is_among(students: Seq<StudentView>) -> spec_fn(StudentView) -> bool {
    |student: StudentView| students.contains(student)
}

/// The test "passes `first` and passes `second`".
pub open spec fn both(
    first: spec_fn(StudentView) -> bool,
    second: spec_fn(StudentView) -> bool,
) -> spec_fn(StudentView) -> bool {
    |student: StudentView| first(student) && second(student)
}

/// What a chain of filters stands for: the students it was made over, and those it
/// has kept so far.
pub struct Narrowing {
    /// The students that the chain was made over, in their order.
    pub all: Seq<StudentView>,
    /// The students kept so far; `None` as long as no filter was applied.
    pub kept: Option<Seq<StudentView>>,
}

impl Narrowing {
    /// The chain over `all` to which no filter was applied yet.
    pub open spec fn over(all: Seq<StudentView>) -> Narrowing {
        Narrowing { all, kept: None }
    }

    /// The chain after one more filter. The filter is put to all the students, not
    /// only to those kept so far; of those it lets through, the ones kept so far stay.
    pub open spec fn apply(self, accepts: spec_fn(StudentView) -> bool) -> Narrowing {
        let candidates = self.all.filter(accepts);
        Narrowing {
            all: self.all,
            kept: Some(
                match self.kept {
                    Some(kept) => candidates.filter(is_among(kept)),
                    None => candidates,
                },
            ),
        }
    }

    /// What the chain gives when it is finished: the students kept, or all of them
    /// where no filter was applied.
    pub open spec fn result(self) -> Seq<StudentView> {
        match self.kept {
            Some(kept) => kept,
            None => self.all,
        }
    }

    /// Whether the students kept are a choice among all of them: each student of
    /// `all` that is kept at all is kept at each place where it stands in `all`,
    /// in the order of `all`, and nothing else is kept. A new chain is such a
    /// choice, and applying a filter keeps it one.
    pub open spec fn wf(self) -> bool {
        match self.kept {
            Some(kept) => kept == self.all.filter(is_among(kept)),
            None => true,
        }
    }
}

/// A student is in what a test lets through exactly when it is in the sequence and
/// passes the test.
pub proof fn lemma_filter_membership(
    students: Seq<StudentView>,
    test: spec_fn(StudentView) -> bool,
    student: StudentView,
)
    ensures
        students.filter(test).contains(student) <==> students.contains(student) && test(student),
{
    let passed = students.filter(test);
    if passed.contains(student) {
        let place = choose|place: int| 0 <= place < passed.len() && passed[place] == student;
        students.lemma_filter_pred(test, place);
        students.lemma_filter_contains_rev(test, student);
    }
    if students.contains(student) && test(student) {
        let place = choose|place: int| 0 <= place < students.len() && students[place] == student;
        students.lemma_filter_contains(test, place);
    }
}

/// Two tests that agree on every student of a sequence let the same students through.
pub proof fn lemma_filter_agree(
    students: Seq<StudentView>,
    first: spec_fn(StudentView) -> bool,
    second: spec_fn(StudentView) -> bool,
)
    requires
        forall|i: int| 0 <= i < students.len() ==> first(#[trigger] students[i]) == second(students[i]),
    ensures
        students.filter(first) == students.filter(second),
    decreases students.len(),
{
    reveal(Seq::filter);
    if students.len() > 0 {
        let front = students.drop_last();
        assert forall|i: int| 0 <= i < front.len() implies first(#[trigger] front[i]) == second(
            front[i],
        ) by {
            assert(front[i] == students[i]);
        }
        lemma_filter_agree(front, first, second);
        assert(first(students.last()) == second(students.last()));
    }
}

/// Putting a second test to what a first test let through is putting both at once.
pub proof fn lemma_filter_twice(
    students: Seq<StudentView>,
    first: spec_fn(StudentView) -> bool,
    second: spec_fn(StudentView) -> bool,
)
    ensures
        students.filter(first).filter(second) == students.filter(both(first, second)),
    decreases students.len(),
{
    reveal(Seq::filter);
    if students.len() > 0 {
        let front = students.drop_last();
        let last = students.last();
        lemma_filter_twice(front, first, second);
        if first(last) {
            front.filter(first).lemma_filter_push(last, second);
        }
    }
}

/// The order in which two tests are put does not change what passes both.
pub proof fn lemma_filter_swap(
    students: Seq<StudentView>,
    first: spec_fn(StudentView) -> bool,
    second: spec_fn(StudentView) -> bool,
)
    ensures
        students.filter(first).filter(second) == students.filter(second).filter(first),
{
    lemma_filter_twice(students, first, second);
    lemma_filter_twice(students, second, first);
    lemma_filter_agree(students, both(first, second), both(second, first));
}

/// The test that every student passes lets every student through.
pub proof fn lemma_filter_all(students: Seq<StudentView>)
    ensures
        students.filter(|student: StudentView| true) == students,
    decreases students.len(),
{
    reveal(Seq::filter);
    if students.len() > 0 {
        lemma_filter_all(students.drop_last());
        assert(students.drop_last().push(students.last()) =~= students);
    }
}

/// A student of a sequence is among that sequence, so the test "is among them" lets
/// the whole sequence through.
pub proof fn lemma_filter_among_itself(students: Seq<StudentView>)
    ensures
        students.filter(is_among(students)) == students,
{
    assert forall|i: int| 0 <= i < students.len() implies is_among(students)(
        #[trigger] students[i],
    ) by {
        assert(students.contains(students[i]));
    }
    lemma_filter_agree(students, is_among(students), |student: StudentView| true);
    lemma_filter_all(students);
}

/// What one more filter does to a chain whose kept students are a choice among all:
/// it keeps, of the students kept so far, those that the filter lets through, in
/// their order. And what it keeps is again a choice among all.
pub proof fn lemma_apply_narrows(chain: Narrowing, accepts: spec_fn(StudentView) -> bool)
    requires
        chain.wf(),
    ensures
        chain.apply(accepts).result() == chain.result().filter(accepts),
        chain.apply(accepts).wf(),
{
    let all = chain.all;
    let before = chain.result();
    let after = chain.apply(accepts).result();
    // What was kept before is what `all` holds of it, in the order of `all`.
    assert(before == all.filter(is_among(before))) by {
        if chain.kept is None {
            lemma_filter_among_itself(all);
        }
    }
    // The filter and the test "was kept before" can be put in either order.
    assert(after == before.filter(accepts)) by {
        if chain.kept is Some {
            lemma_filter_swap(all, accepts, is_among(before));
        }
    }
    // A student of `all` is kept now exactly when it was kept before and passes.
    assert(after == all.filter(is_among(after))) by {
        assert forall|i: int| 0 <= i < all.len() implies is_among(after)(#[trigger] all[i])
            == both(is_among(before), accepts)(all[i]) by {
            lemma_filter_membership(before, accepts, all[i]);
        }
        lemma_filter_agree(all, is_among(after), both(is_among(before), accepts));
        lemma_filter_twice(all, is_among(before), accepts);
    }
}

/// **No filter, whole list.** A chain to which no filter was applied gives, when it
/// is finished, every student that it was made over, in their order.
pub proof fn lemma_no_filter_gives_all(all: Seq<StudentView>)
    ensures
        Narrowing::over(all).result() == all,
        Narrowing::over(all).wf(),
{
}

/// **Once is enough.** Applying the same filter twice in a row gives what applying
/// it once gives. This holds of every chain.
pub proof fn lemma_apply_twice(chain: Narrowing, accepts: spec_fn(StudentView) -> bool)
    ensures
        chain.apply(accepts).apply(accepts).result() == chain.apply(accepts).result(),
{
    let candidates = chain.all.filter(accepts);
    let once = chain.apply(accepts).result();
    match chain.kept {
        Some(kept) => {
            assert forall|i: int| 0 <= i < candidates.len() implies is_among(once)(
                #[trigger] candidates[i],
            ) == is_among(kept)(candidates[i]) by {
                lemma_filter_membership(candidates, is_among(kept), candidates[i]);
            }
            lemma_filter_agree(candidates, is_among(once), is_among(kept));
        },
        None => {
            lemma_filter_among_itself(candidates);
        },
    }
}

/// Which students a chain keeps after two filters: those of the list that both
/// filters let through and that the chain had kept before.
pub proof fn lemma_kept_after_two(
    chain: Narrowing,
    first: spec_fn(StudentView) -> bool,
    second: spec_fn(StudentView) -> bool,
    student: StudentView,
)
    ensures
        chain.apply(first).apply(second).result().contains(student) <==> {
            &&& chain.all.contains(student)
            &&& first(student)
            &&& second(student)
            &&& chain.kept matches Some(kept) ==> kept.contains(student)
        },
{
    let after_first = chain.apply(first).result();
    lemma_filter_membership(chain.all.filter(second), is_among(after_first), student);
    lemma_filter_membership(chain.all, second, student);
    lemma_filter_membership(chain.all, first, student);
    match chain.kept {
        Some(kept) => {
            lemma_filter_membership(chain.all.filter(first), is_among(kept), student);
        },
        None => {},
    }
}

/// **The order of the filters does not change who is kept.** Two filters applied
/// in one order keep the same students as the two applied in the other order. This
/// holds of every chain. (Of the order in which the kept students stand it says
/// nothing; see [`lemma_apply_order_exact`].)
pub proof fn lemma_apply_order(
    chain: Narrowing,
    first: spec_fn(StudentView) -> bool,
    second: spec_fn(StudentView) -> bool,
)
    ensures
        chain.apply(first).apply(second).result().to_set() == chain.apply(second).apply(
            first,
        ).result().to_set(),
{
    let one = chain.apply(first).apply(second).result();
    let other = chain.apply(second).apply(first).result();
    assert forall|student: StudentView| one.contains(student) == other.contains(student) by {
        lemma_kept_after_two(chain, first, second, student);
        lemma_kept_after_two(chain, second, first, student);
    }
}

/// Where the students kept are a choice among all (which holds of every chain
/// built by [`Narrowing::over`] and [`Narrowing::apply`]), two filters give the
/// same students in the same order, whichever is applied first.
pub proof fn lemma_apply_order_exact(
    chain: Narrowing,
    first: spec_fn(StudentView) -> bool,
    second: spec_fn(StudentView) -> bool,
)
    requires
        chain.wf(),
    ensures
        chain.apply(first).apply(second).result() == chain.apply(second).apply(first).result(),
{
    lemma_apply_narrows(chain, first);
    lemma_apply_narrows(chain.apply(first), second);
    lemma_apply_narrows(chain, second);
    lemma_apply_narrows(chain.apply(second), first);
    lemma_filter_swap(chain.result(), first, second);
}

/// **A filter never adds.** After one more filter a chain gives at most as many
/// students as it gave before. This is said of a chain whose kept students are a
/// choice among all, as those of every chain built by [`Narrowing::over`] and
/// [`Narrowing::apply`] are.
pub proof fn lemma_apply_shrinks(chain: Narrowing, accepts: spec_fn(StudentView) -> bool)
    requires
        chain.wf(),
    ensures
        chain.apply(accepts).result().len() <= chain.result().len(),
{
    lemma_apply_narrows(chain, accepts);
    chain.result().lemma_filter_len(accepts);
}

/// **Filters that exclude each other keep nobody.** Where no student of the list
/// passes both of two filters, a chain to which both were applied gives no student.
/// This holds of every chain.
pub proof fn lemma_exclusive_filters(
    chain: Narrowing,
    first: spec_fn(StudentView) -> bool,
    second: spec_fn(StudentView) -> bool,
)
    requires
        forall|i: int|
            0 <= i < chain.all.len() ==> !(first(#[trigger] chain.all[i]) && second(chain.all[i])),
    ensures
        chain.apply(first).apply(second).result().len() == 0,
{
    let kept = chain.apply(first).apply(second).result();
    if kept.len() > 0 {
        let student = kept[0];
        assert(kept.contains(student));
        lemma_kept_after_two(chain, first, second, student);
        let place = choose|place: int| 0 <= place < chain.all.len() && chain.all[place] == student;
        assert(!(first(chain.all[place]) && second(chain.all[place])));
    }
}

} // verus!
