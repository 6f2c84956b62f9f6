//! A table with at most one timeout for each API category.

use crate::api::{Api, API_COUNT};
use crate::time::TimeSpan;
use vstd::prelude::*;

verus! {

/// The timeouts that were set for single API categories.
///
/// Seen from outside, the table is a finite map from categories to
/// durations. It keeps one slot for each category, in the order of the
/// enumeration.
#[derive(Debug)]
pub struct ApiTimeouts {
    slots: Vec<Option<TimeSpan>>,
}

impl View for ApiTimeouts {
    type V = Map<Api, TimeSpan>;

    closed spec fn view(&self) -> Map<Api, TimeSpan> {
        Map::new(
            |api: Api| self.slots@[api.spec_index()] is Some,
            |api: Api| self.slots@[api.spec_index()]->0,
        )
    }
}

/// The categories of `table` whose position is below `bound`.
pub open spec fn keys_below(table: Map<Api, TimeSpan>, bound: int) -> Set<Api> {
    Set::new(|api: Api| table.contains_key(api) && api.spec_index() < bound)
}

/// The keys below a position are finitely many, and the key at the position
/// itself is the only one that the next position adds.
pub proof fn lemma_keys_below_step(table: Map<Api, TimeSpan>, bound: int)
    requires
        0 <= bound < API_COUNT,
        keys_below(table, bound).finite(),
    ensures
        keys_below(table, bound + 1).finite(),
        !keys_below(table, bound).contains(Api::spec_at(bound)),
        keys_below(table, bound + 1) == if table.contains_key(Api::spec_at(bound)) {
            keys_below(table, bound).insert(Api::spec_at(bound))
        } else {
            keys_below(table, bound)
        },
{
    let at = Api::spec_at(bound);
    Api::lemma_at_round_trip(bound);
    assert forall|api: Api| api.spec_index() == bound implies api == at by {
        api.lemma_index_round_trip();
    }
    if table.contains_key(at) {
        assert(keys_below(table, bound + 1) =~= keys_below(table, bound).insert(at));
    } else {
        assert(keys_below(table, bound + 1) =~= keys_below(table, bound));
    }
}

/// Up to any position, the keys are finitely many: no more than positions.
pub proof fn lemma_keys_below_finite(table: Map<Api, TimeSpan>, bound: int)
    requires
        0 <= bound <= API_COUNT,
    ensures
        keys_below(table, bound).finite(),
        keys_below(table, bound).len() <= bound,
    decreases bound,
{
    if bound == 0 {
        assert(keys_below(table, 0) =~= Set::<Api>::empty());
    } else {
        lemma_keys_below_finite(table, bound - 1);
        lemma_keys_below_step(table, bound - 1);
    }
}

/// A table of timeouts never has more keys than there are categories.
pub proof fn lemma_keys_finite(table: Map<Api, TimeSpan>)
    ensures
        table.dom().finite(),
        table.dom() == keys_below(table, API_COUNT as int),
        table.dom().len() <= API_COUNT,
{
    lemma_keys_below_finite(table, API_COUNT as int);
    assert forall|api: Api| table.dom().contains(api) implies keys_below(
        table,
        API_COUNT as int,
    ).contains(api) by {
        api.lemma_index_round_trip();
    }
    assert(table.dom() =~= keys_below(table, API_COUNT as int));
}

impl ApiTimeouts {
    #[verifier::type_invariant]
    spec fn inv(self) -> bool {
        self.slots.len() == API_COUNT
    }

    /// A table without any timeout.
    pub fn new() -> (table: ApiTimeouts)
        ensures
            table@ == Map::<Api, TimeSpan>::empty(),
    {
        let mut slots: Vec<Option<TimeSpan>> = Vec::new();
        let mut index: usize = 0;
        while index < API_COUNT
            invariant
                index <= API_COUNT,
                slots.len() == index,
                forall|i: int| 0 <= i < index ==> slots[i] is None,
            decreases API_COUNT - index,
        {
            slots.push(None);
            index = index + 1;
        }
        let table = ApiTimeouts { slots };
        proof {
            assert forall|api: Api| !(#[trigger] table@.contains_key(api)) by {
                api.lemma_index_round_trip();
            }
        }
        table
    }

    /// The table with the timeout of `api` set, in place of any that it had.
    pub fn insert(self, api: Api, timeout: TimeSpan) -> (table: ApiTimeouts)
        ensures
            table@ == self@.insert(api, timeout),
    {
        proof {
            use_type_invariant(&self);
        }
        let mut slots = self.slots;
        slots.set(api.index(), Some(timeout));
        let table = ApiTimeouts { slots };
        proof {
            assert forall|other: Api| other.spec_index() == api.spec_index() implies other
                == api by {
                other.lemma_index_round_trip();
                api.lemma_index_round_trip();
            }
        }
        table
    }

    /// The timeout of `api`, if one was set.
    pub fn get(&self, api: Api) -> (timeout: Option<TimeSpan>)
        ensures
            timeout == if self@.contains_key(api) {
                Some(self@[api])
            } else {
                None::<TimeSpan>
            },
    {
        proof {
            use_type_invariant(self);
        }
        self.slots[api.index()]
    }

    /// The timeouts that were set, in the order of the enumeration.
    pub fn entries(&self) -> (list: Vec<(Api, TimeSpan)>)
        ensures
            list.len() == self@.dom().len(),
            forall|i: int| 0 <= i < list.len() ==> self@.contains_pair(list[i].0, list[i].1),
            forall|api: Api|
                self@.contains_key(api) ==> exists|i: int|
                    0 <= i < list.len() && (#[trigger] list[i]).0 == api,
            forall|i: int, j: int|
                0 <= i < j < list.len() ==> list[i].0.spec_index() < list[j].0.spec_index(),
    {
        proof {
            use_type_invariant(self);
            assert(keys_below(self@, 0) =~= Set::<Api>::empty());
        }
        let mut list: Vec<(Api, TimeSpan)> = Vec::new();
        let mut index: usize = 0;
        while index < API_COUNT
            invariant
                index <= API_COUNT,
                self.slots.len() == API_COUNT,
                keys_below(self@, index as int).finite(),
                list.len() == keys_below(self@, index as int).len(),
                forall|i: int|
                    0 <= i < list.len() ==> self@.contains_pair(list[i].0, list[i].1)
                        && list[i].0.spec_index() < index,
                forall|api: Api|
                    self@.contains_key(api) && api.spec_index() < index ==> exists|i: int|
                        0 <= i < list.len() && (#[trigger] list[i]).0 == api,
                forall|i: int, j: int|
                    0 <= i < j < list.len() ==> list[i].0.spec_index() < list[j].0.spec_index(),
            decreases API_COUNT - index,
        {
            let api = Api::at(index).unwrap();
            let ghost before = list@;
            proof {
                lemma_keys_below_step(self@, index as int);
                Api::lemma_at_round_trip(index as int);
            }
            match self.slots[index] {
                Some(timeout) => {
                    list.push((api, timeout));
                    proof {
                        assert forall|other: Api|
                            self@.contains_key(other) && other.spec_index() < index
                                + 1 implies exists|i: int|
                            0 <= i < list.len() && (#[trigger] list[i]).0 == other by {
                            if other.spec_index() < index {
                                let i = choose|i: int|
                                    0 <= i < before.len() && (#[trigger] before[i]).0 == other;
                                assert(list[i].0 == other);
                            } else {
                                other.lemma_index_round_trip();
                                assert(list[before.len() as int].0 == other);
                            }
                        }
                    }
                },
                None => {
                    proof {
                        assert forall|other: Api|
                            self@.contains_key(other) && other.spec_index() < index
                                + 1 implies exists|i: int|
                            0 <= i < list.len() && (#[trigger] list[i]).0 == other by {
                            other.lemma_index_round_trip();
                        }
                    }
                },
            }
            index = index + 1;
        }
        proof {
            lemma_keys_finite(self@);
        }
        list
    }
}

} // verus!
