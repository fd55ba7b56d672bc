//! The Persistence Port: a transactional interface over container records,
//! and a verified in-memory adapter.
//!
//! [`ProvideData`] abstracts the store: create, list-all, find-by-name and
//! delete-by-name, each executed by an adapter within one transaction
//! boundary.  The contracts speak of an abstract record sequence, ordered by
//! creation time; every adapter surfaces failures as classified
//! [`ProvideError`] values, never backend-native shapes.  [`MemStore`] is the
//! in-memory adapter, verified against the port contract; an adapter over a
//! relational backend belongs to the surrounding application.

use vstd::prelude::*;

use crate::error::ProvideError;
use crate::model::{ContainerEntity, ContainerEntityV};

verus! {

/// The record sequence a vector of rows stands for.
pub open spec fn views_of(rows: Seq<ContainerEntity>) -> Seq<ContainerEntityV> {
    rows.map_values(|e: ContainerEntity| e@)
}

/// The ids of a record sequence, in record order.
pub open spec fn ids_of(recs: Seq<ContainerEntityV>) -> Seq<Seq<char>> {
    recs.map_values(|r: ContainerEntityV| r.id)
}

/// Some record carries this name.
pub open spec fn has_name(recs: Seq<ContainerEntityV>, name: Seq<char>) -> bool {
    exists|i: int| 0 <= i < recs.len() && recs[i].name == name
}

/// Some record carries this id.
pub open spec fn has_id(recs: Seq<ContainerEntityV>, id: Seq<char>) -> bool {
    exists|i: int| 0 <= i < recs.len() && recs[i].id == id
}

/// No two records share a name.
pub open spec fn unique_names(recs: Seq<ContainerEntityV>) -> bool {
    forall|i: int, j: int| 0 <= i < j < recs.len() ==> recs[i].name != recs[j].name
}

/// No two records share an id.
pub open spec fn unique_ids(recs: Seq<ContainerEntityV>) -> bool {
    forall|i: int, j: int| 0 <= i < j < recs.len() ==> recs[i].id != recs[j].id
}

/// The records stand in creation order.
pub open spec fn sorted_by_created_at(recs: Seq<ContainerEntityV>) -> bool {
    forall|i: int, j: int| 0 <= i < j < recs.len() ==> recs[i].created_at <= recs[j].created_at
}

/// What every store state satisfies: names unique, ids unique, records in
/// creation order.
pub open spec fn store_inv(recs: Seq<ContainerEntityV>) -> bool {
    unique_names(recs) && unique_ids(recs) && sorted_by_created_at(recs)
}

/// The Persistence Port.  An adapter's abstract state is a sequence of
/// records in creation order; each operation either transforms it as stated
/// or fails with a classified error and leaves it unchanged.
pub trait ProvideData: Sized {
    /// The persisted records, in creation order.  An adapter outside the
    /// verifier's sight that leaves this default models an empty store and
    /// has nothing proved about it.
    open spec fn records(&self) -> Seq<ContainerEntityV> {
        Seq::empty()
    }

    /// The adapter's well-formedness; it must carry [`store_inv`].
    open spec fn wf(&self) -> bool {
        true
    }

    /// Insert a new record.  Success appends a record carrying exactly the
    /// given identity, name and image, and is owed only where neither the
    /// name nor the id is already taken; a uniqueness collision is reported
    /// as `UniqueViolation`, and `UniqueViolation` reports nothing else.
    fn create_container(&mut self, id: &str, name: &str, image: &str) -> (r: Result<
        ContainerEntity,
        ProvideError,
    >)
        requires
            old(self).wf(),
        ensures
            final(self).wf(),
            match r {
                Ok(e) => {
                    &&& !has_name(old(self).records(), name@)
                    &&& !has_id(old(self).records(), id@)
                    &&& e@.id == id@
                    &&& e@.name == name@
                    &&& e@.image == image@
                    &&& e@.created_at == e@.updated_at
                    &&& final(self).records() == old(self).records().push(e@)
                },
                Err(pe) => {
                    &&& final(self).records() == old(self).records()
                    &&& (pe matches ProvideError::UniqueViolation { .. } <==> (has_name(
                        old(self).records(),
                        name@,
                    ) || has_id(old(self).records(), id@)))
                },
            },
    ;

    /// All records, in creation order; an empty store yields an empty
    /// sequence, not an error.
    fn get_all_containers(&mut self) -> (r: Result<Vec<ContainerEntity>, ProvideError>)
        requires
            old(self).wf(),
        ensures
            final(self).wf(),
            final(self).records() == old(self).records(),
            r matches Ok(v) ==> views_of(v@) == old(self).records() && store_inv(views_of(v@)),
    ;

    /// The record carrying the name, if any; absence is an empty result, not
    /// an error.
    fn get_container_by_name(&mut self, name: &str) -> (r: Result<
        Option<ContainerEntity>,
        ProvideError,
    >)
        requires
            old(self).wf(),
        ensures
            final(self).wf(),
            final(self).records() == old(self).records(),
            match r {
                Ok(found) => match found {
                    Some(e) => e@.name == name@ && old(self).records().contains(e@),
                    None => !has_name(old(self).records(), name@),
                },
                Err(_) => true,
            },
    ;

    /// Remove the record carrying the name and hand it back, or an empty
    /// result where none matched.
    fn delete_container_by_name(&mut self, name: &str) -> (r: Result<
        Option<ContainerEntity>,
        ProvideError,
    >)
        requires
            old(self).wf(),
        ensures
            final(self).wf(),
            match r {
                Ok(found) => match found {
                    Some(e) => e@.name == name@ && exists|i: int|
                        0 <= i < old(self).records().len() && old(self).records()[i] == e@
                            && final(self).records() == old(self).records().remove(i),
                    None => !has_name(old(self).records(), name@) && final(self).records() == old(
                        self,
                    ).records(),
                },
                Err(_) => final(self).records() == old(self).records(),
            },
    ;
}

/// The in-memory adapter of the Persistence Port: a verified test double.
/// It holds the records in a vector, stamps them from a monotone clock, and
/// can be told to fail its next operations, so that workflows can be
/// exercised without a live database.
pub struct MemStore {
    rows: Vec<ContainerEntity>,
    clock: i64,
    fault: Option<String>,
}

impl MemStore {
    /// Whether the store was told to fail.
    pub closed spec fn faulted(&self) -> bool {
        self.fault is Some
    }

    /// An empty store.
    pub fn new() -> (r: MemStore)
        ensures
            r.wf(),
            r.records() == Seq::<ContainerEntityV>::empty(),
            !r.faulted(),
    {
        MemStore { rows: Vec::new(), clock: 0, fault: None }
    }

    /// Make every following operation fail, classified as `UnHandledError`
    /// carrying this description (uniqueness collisions are still reported
    /// as such).  Simulates a lost backend.
    pub fn set_fault(&mut self, description: String)
        requires
            old(self).wf(),
        ensures
            final(self).wf(),
            final(self).records() == old(self).records(),
            final(self).faulted(),
    {
        self.fault = Some(description);
    }

    /// Let operations succeed again.
    pub fn clear_fault(&mut self)
        requires
            old(self).wf(),
        ensures
            final(self).wf(),
            final(self).records() == old(self).records(),
            !final(self).faulted(),
    {
        self.fault = None;
    }
}

/// `true` exactly when some row of the prefix carries the name.
fn scan_name(rows: &Vec<ContainerEntity>, name: &String) -> (r: bool)
    ensures
        r == has_name(views_of(rows@), name@),
{
    let mut i: usize = 0;
    while i < rows.len()
        invariant
            0 <= i <= rows@.len(),
            forall|k: int| 0 <= k < i ==> views_of(rows@)[k].name != name@,
        decreases rows@.len() - i,
    {
        if rows[i].name == *name {
            assert(views_of(rows@)[i as int].name == name@);
            return true;
        }
        i += 1;
    }
    false
}

/// `true` exactly when some row of the prefix carries the id.
fn scan_id(rows: &Vec<ContainerEntity>, id: &String) -> (r: bool)
    ensures
        r == has_id(views_of(rows@), id@),
{
    let mut i: usize = 0;
    while i < rows.len()
        invariant
            0 <= i <= rows@.len(),
            forall|k: int| 0 <= k < i ==> views_of(rows@)[k].id != id@,
        decreases rows@.len() - i,
    {
        if rows[i].id == *id {
            assert(views_of(rows@)[i as int].id == id@);
            return true;
        }
        i += 1;
    }
    false
}

impl ProvideData for MemStore {
    closed spec fn records(&self) -> Seq<ContainerEntityV> {
        views_of(self.rows@)
    }

    closed spec fn wf(&self) -> bool {
        &&& store_inv(views_of(self.rows@))
        &&& forall|i: int|
            0 <= i < self.rows@.len() ==> views_of(self.rows@)[i].created_at <= self.clock as int
    }

    fn create_container(&mut self, id: &str, name: &str, image: &str) -> (r: Result<
        ContainerEntity,
        ProvideError,
    >)
        ensures
            final(self).faulted() == old(self).faulted(),
            !old(self).faulted() && !has_name(old(self).records(), name@) && !has_id(
                old(self).records(),
                id@,
            ) ==> r is Ok,
    {
        let name_s = name.to_owned();
        let id_s = id.to_owned();
        if scan_name(&self.rows, &name_s) || scan_id(&self.rows, &id_s) {
            return Err(ProvideError::UniqueViolation { details: name_s });
        }
        if let Some(d) = &self.fault {
            return Err(ProvideError::UnHandledError { description: d.clone() });
        }
        let e = ContainerEntity {
            id: id_s,
            name: name_s,
            image: image.to_owned(),
            created_at: self.clock,
            updated_at: self.clock,
        };
        let result = e.clone();
        self.rows.push(e);
        if self.clock < i64::MAX {
            self.clock = self.clock + 1;
        }
        proof {
            assert(views_of(self.rows@) =~= views_of(old(self).rows@).push(result@));
        }
        Ok(result)
    }

    fn get_all_containers(&mut self) -> (r: Result<Vec<ContainerEntity>, ProvideError>)
        ensures
            final(self).faulted() == old(self).faulted(),
            !old(self).faulted() ==> r is Ok,
    {
        if let Some(d) = &self.fault {
            return Err(ProvideError::UnHandledError { description: d.clone() });
        }
        let mut out: Vec<ContainerEntity> = Vec::new();
        let mut i: usize = 0;
        while i < self.rows.len()
            invariant
                0 <= i <= self.rows@.len(),
                views_of(out@) == views_of(self.rows@).take(i as int),
                out@.len() == i,
            decreases self.rows@.len() - i,
        {
            let e = self.rows[i].clone();
            out.push(e);
            proof {
                assert(views_of(out@) =~= views_of(self.rows@).take(i + 1 as int));
            }
            i += 1;
        }
        proof {
            assert(views_of(self.rows@).take(self.rows@.len() as int) =~= views_of(self.rows@));
        }
        Ok(out)
    }

    fn get_container_by_name(&mut self, name: &str) -> (r: Result<
        Option<ContainerEntity>,
        ProvideError,
    >)
        ensures
            final(self).faulted() == old(self).faulted(),
            !old(self).faulted() ==> r is Ok,
    {
        if let Some(d) = &self.fault {
            return Err(ProvideError::UnHandledError { description: d.clone() });
        }
        let name_s = name.to_owned();
        let mut i: usize = 0;
        while i < self.rows.len()
            invariant
                *self == *old(self),
                self.wf(),
                name_s@ == name@,
                0 <= i <= self.rows@.len(),
                forall|k: int| 0 <= k < i ==> views_of(self.rows@)[k].name != name@,
            decreases self.rows@.len() - i,
        {
            if self.rows[i].name == name_s {
                let e = self.rows[i].clone();
                proof {
                    assert(views_of(self.rows@)[i as int] == e@);
                    assert(views_of(self.rows@).contains(e@));
                }
                return Ok(Some(e));
            }
            i += 1;
        }
        Ok(None)
    }

    fn delete_container_by_name(&mut self, name: &str) -> (r: Result<
        Option<ContainerEntity>,
        ProvideError,
    >)
        ensures
            final(self).faulted() == old(self).faulted(),
            !old(self).faulted() ==> r is Ok,
    {
        if let Some(d) = &self.fault {
            return Err(ProvideError::UnHandledError { description: d.clone() });
        }
        let name_s = name.to_owned();
        let mut i: usize = 0;
        while i < self.rows.len()
            invariant
                *self == *old(self),
                self.wf(),
                name_s@ == name@,
                0 <= i <= self.rows@.len(),
                forall|k: int| 0 <= k < i ==> views_of(self.rows@)[k].name != name@,
            decreases self.rows@.len() - i,
        {
            if self.rows[i].name == name_s {
                proof {
                    assert(views_of(self.rows@)[i as int] == self.rows@[i as int]@);
                }
                let e = self.rows.remove(i);
                proof {
                    let pre = views_of(old(self).rows@);
                    assert(e@ == pre[i as int]);
                    old(self).rows@.remove_ensures(i as int);
                    pre.remove_ensures(i as int);
                    assert(views_of(self.rows@) =~= pre.remove(i as int));
                    lemma_store_inv_remove(pre, i as int);
                    assert(forall|k: int|
                        0 <= k < self.rows@.len() ==> views_of(self.rows@)[k].created_at
                            <= self.clock as int);
                    assert(e@.name == name@);
                    assert(old(self).records()[i as int] == e@);
                    assert(self.records() == old(self).records().remove(i as int));
                    assert(exists|k: int|
                        0 <= k < old(self).records().len() && old(self).records()[k] == e@
                            && self.records() == old(self).records().remove(k));
                }
                return Ok(Some(e));
            }
            i += 1;
        }
        Ok(None)
    }
}

/// Removing a record keeps the store invariant.
proof fn lemma_store_inv_remove(recs: Seq<ContainerEntityV>, i: int)
    requires
        store_inv(recs),
        0 <= i < recs.len(),
    ensures
        store_inv(recs.remove(i)),
{
    recs.remove_ensures(i);
    let out = recs.remove(i);
    assert(forall|k: int|
        0 <= k < out.len() ==> out[k] == (if k < i {
            recs[k]
        } else {
            recs[k + 1]
        }));
}

} // verus!
