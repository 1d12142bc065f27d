//! Picking the adults out of a list of people.

use crate::person::{Person, ADULT_AGE};
use vstd::prelude::*;

verus! {

/// The adults among `people`, in the order in which they stand there.
pub open spec fn adults(people: Seq<Person>) -> Seq<Person> {
    people.filter(|p: Person| p@.age >= ADULT_AGE)
}

/// The people that a list of references refers to.
pub open spec fn referents(found: Seq<&Person>) -> Seq<Person> {
    found.map_values(|p: &Person| *p)
}

/// Returns references to the adults among `people`, each one once and in the
/// order of `people`. The list itself is left as it is.
pub fn find_adults(people: &[Person]) -> (found: Vec<&Person>)
    ensures
        referents(found@) == adults(people@),
{
    let mut found: Vec<&Person> = Vec::new();
    let mut i: usize = 0;
    proof {
        reveal(Seq::filter);
    }
    while i < people.len()
        invariant
            i <= people.len(),
            referents(found@) == adults(people@.take(i as int)),
        decreases people.len() - i,
    {
        let person = &people[i];
        proof {
            // One more person is looked at: the adults so far, and this one
            // behind them if it is an adult.
            reveal(Seq::filter);
            assert(people@.take(i + 1).drop_last() =~= people@.take(i as int));
        }
        if person.is_adult() {
            found.push(person);
        }
        i += 1;
    }
    assert(people@.take(i as int) =~= people@);
    found
}

} // verus!
