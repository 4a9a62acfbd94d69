//! The in-memory journal backend: a per-entity vector of events.

use std::collections::HashMap;

use vstd::prelude::*;

use crate::aggregate_root::SequencedEvent;
use crate::errors::OrderError;
use crate::events_journal::{has_sequence, views_of, EventsJournal, ViewClone};

verus! {

broadcast use vstd::std_specs::hash::group_hash_axioms;

/// A journal kept entirely in process memory, for tests and embedding.
pub struct InMemoryJournal<E> {
    events: HashMap<i64, Vec<SequencedEvent<E>>>,
}

impl<E: ViewClone> InMemoryJournal<E> {
    /// An empty journal: no entity has any event on record.
    pub fn new() -> (r: Result<Self, OrderError>)
        ensures
            r matches Ok(j) && forall|id: i64| (#[trigger] j.events_of(id)) == Seq::<
                (int, E::V),
            >::empty(),
    {
        Ok(Self { events: HashMap::new() })
    }
}

impl<E: ViewClone> EventsJournal<E> for InMemoryJournal<E> {
    /// Process memory does not fail on its own.
    open spec fn may_fail(&self) -> bool {
        false
    }

    closed spec fn events_of(&self, entity_id: i64) -> Seq<(int, E::V)> {
        if self.events@.contains_key(entity_id) {
            views_of(self.events@[entity_id]@)
        } else {
            Seq::empty()
        }
    }

    fn persist_event(&mut self, entity_id: i64, evt_w_seq: &SequencedEvent<E>) -> (r: Result<
        (),
        OrderError,
    >)
        ensures
            r is Err <==> has_sequence(old(self).events_of(entity_id), evt_w_seq@.0),
    {
        let ghost old_self = *self;
        let mut record: Vec<SequencedEvent<E>> = match self.events.remove(&entity_id) {
            Some(record) => record,
            None => Vec::new(),
        };
        let ghost prior = views_of(record@);
        proof {
            assert(prior =~= old_self.events_of(entity_id));
        }
        if contains_sequence(&record, evt_w_seq.sequence_number) {
            self.events.insert(entity_id, record);
            proof {
                assert forall|other: i64|
                    #[trigger] self.events_of(other) == old_self.events_of(other) by {
                    if other == entity_id {
                        assert(self.events_of(entity_id) =~= prior);
                    } else {
                        assert(self.events_of(other) == old_self.events_of(other));
                    }
                }
            }
            return Err(OrderError::DuplicateSequence);
        }
        let ghost record_pre = record@;
        record.push(evt_w_seq.clone_view());
        proof {
            assert(record@ == record_pre.push(record@[record_pre.len() as int]));
            assert forall|j: int| 0 <= j < record@.len() implies views_of(record@)[j]
                == prior.push(evt_w_seq@)[j] by {
                if j < record_pre.len() {
                    assert(record@[j] == record_pre[j]);
                    assert(views_of(record_pre)[j] == record_pre[j]@);
                } else {
                    assert(record@[j]@ == evt_w_seq@);
                }
            }
            assert(views_of(record@) =~= prior.push(evt_w_seq@));
        }
        self.events.insert(entity_id, record);
        proof {
            assert(self.events_of(entity_id) =~= prior.push(evt_w_seq@));
            assert forall|other: i64| other != entity_id implies #[trigger] self.events_of(other)
                == old_self.events_of(other) by {
            }
        }
        Ok(())
    }

    fn retrieve_events(&mut self, entity_id: i64) -> (r: Result<
        Vec<SequencedEvent<E>>,
        OrderError,
    >)
        ensures
            r is Ok,
    {
        let mut copy: Vec<SequencedEvent<E>> = Vec::new();
        match self.events.get(&entity_id) {
            None => {
                proof {
                    assert(views_of(copy@) =~= Seq::<(int, E::V)>::empty());
                }
                Ok(copy)
            },
            Some(record) => {
                let ghost full = views_of(record@);
                let mut i: usize = 0;
                while i < record.len()
                    invariant
                        i <= record@.len(),
                        full == views_of(record@),
                        views_of(copy@) =~= full.take(i as int),
                    decreases record@.len() - i,
                {
                    let ghost copy_pre = copy@;
                    copy.push(record[i].clone_view());
                    proof {
                        assert(full.len() == record@.len());
                        assert(views_of(copy_pre) == full.take(i as int));
                        assert(full.take(i as int).len() == i as int);
                        assert(views_of(copy_pre).len() == copy_pre.len());
                        assert(copy_pre.len() == i as int);
                        assert(copy@.len() == i + 1);
                        assert forall|j: int| 0 <= j < copy@.len() implies views_of(copy@)[j]
                            == full.take(i as int + 1)[j] by {
                            if j < copy_pre.len() {
                                assert(copy@[j] == copy_pre[j]);
                                assert(views_of(copy_pre)[j] == copy_pre[j]@);
                            } else {
                                assert(copy@[j]@ == record@[i as int]@);
                            }
                        }
                        assert(views_of(copy@) =~= full.take(i as int + 1));
                    }
                    i += 1;
                }
                proof {
                    assert(full.take(record@.len() as int) =~= full);
                }
                Ok(copy)
            },
        }
    }
}

/// Whether any recorded event carries the given sequence number.
fn contains_sequence<E: View>(record: &Vec<SequencedEvent<E>>, seq_num: i64) -> (r: bool)
    ensures
        r == has_sequence(views_of(record@), seq_num as int),
{
    let ghost prior = views_of(record@);
    let mut i: usize = 0;
    while i < record.len()
        invariant
            i <= record@.len(),
            prior == views_of(record@),
            forall|k: int| 0 <= k < i ==> (#[trigger] prior[k]).0 != seq_num as int,
        decreases record@.len() - i,
    {
        if record[i].sequence_number == seq_num {
            proof {
                assert(prior[i as int].0 == seq_num as int);
            }
            return true;
        }
        i += 1;
    }
    proof {
        assert(!has_sequence(prior, seq_num as int));
    }
    false
}

} // verus!
