//! What a stage hands back: for each candidate, whether the store has it,
//! whether it can be placed, and what to send where it is new.

use vstd::prelude::*;
use crate::mpdb::DbId;

verus! {

/// The decision on one candidate.
#[derive(Clone, Debug, PartialEq, Eq)]
pub enum Step<P> {
    /// The store holds the candidate already: nothing is sent.
    Skip,
    /// The row that the candidate belongs under is not in the tables:
    /// nothing is sent.
    Unresolved,
    /// The candidate is new: this is the row to create.
    Create(P),
}

/// A country to create.
#[derive(Clone, Debug, PartialEq, Eq)]
pub struct NewCountry {
    pub name: String,
    pub slug: String,
    pub code: Option<String>,
}

/// A city to create.
#[derive(Clone, Debug, PartialEq, Eq)]
pub struct NewCity {
    pub name: String,
    pub country_id: DbId,
    pub slug: String,
}

/// A venue to create.
#[derive(Clone, Debug, PartialEq, Eq)]
pub struct NewVenue {
    pub name: String,
    pub city_id: DbId,
    pub unique_name: String,
    pub slug: String,
}

/// An artist to create.
#[derive(Clone, Debug, PartialEq, Eq)]
pub struct NewArtist {
    pub name: String,
    pub slug: String,
}

/// How many of the steps ask for a row to be created.
pub open spec fn creations<P>(steps: Seq<Step<P>>) -> nat
    decreases steps.len(),
{
    if steps.len() == 0 {
        0
    } else if steps.last() is Create {
        creations(steps.drop_last()) + 1
    } else {
        creations(steps.drop_last())
    }
}

/// Where no step asks for a row, the creations number none.
pub proof fn lemma_no_creations<P>(steps: Seq<Step<P>>)
    requires
        forall|i: int| 0 <= i < steps.len() ==> !(#[trigger] steps[i] is Create),
    ensures
        creations(steps) == 0,
    decreases steps.len(),
{
    if steps.len() > 0 {
        let head = steps.drop_last();
        assert forall|i: int| 0 <= i < head.len() implies !(#[trigger] head[i] is Create) by {
            assert(head[i] == steps[i]);
        }
        lemma_no_creations(head);
    }
}

/// How many of the steps ask for a row to be created.
pub fn count_creations<P>(steps: &Vec<Step<P>>) -> (n: usize)
    ensures
        n == creations(steps@),
{
    let mut n: usize = 0;
    let mut i: usize = 0;
    assert(steps@.take(0) =~= Seq::<Step<P>>::empty());
    while i < steps.len()
        invariant
            i <= steps.len(),
            n <= i,
            n == creations(steps@.take(i as int)),
        decreases steps.len() - i,
    {
        proof {
            assert(steps@.take(i + 1).drop_last() == steps@.take(i as int));
        }
        match &steps[i] {
            Step::Create(_) => {
                n += 1;
            },
            _ => {},
        }
        i += 1;
    }
    assert(steps@.take(steps.len() as int) == steps@);
    n
}

} // verus!
