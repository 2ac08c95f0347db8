use vstd::prelude::*;
use crate::crud::{created, removed, replaced};
use crate::error::{CrudError, Route};
use crate::store::{RentalCase, Store, StoreView};
use crate::table::Entry;

verus! {

impl RentalCase {
    /// A copy of the rental case.
    pub fn duplicate(&self) -> (r: RentalCase)
        ensures
            r == *self,
    {
        RentalCase {
            customer_id: self.customer_id,
            car_plate: self.car_plate.clone(),
            staff_id: self.staff_id,
            start_date: self.start_date.clone(),
            end_date: self.end_date.clone(),
            status: self.status.clone(),
        }
    }
}

impl StoreView {
    /// The customer, the car and the staff member of the case all exist.
    pub open spec fn case_references_exist(self, c: RentalCase) -> bool {
        &&& self.customers.contains_key(c.customer_id)
        &&& self.cars.contains_key(c.car_plate@)
        &&& self.staff.contains_key(c.staff_id)
    }
}

fn references_exist(store: &Store, c: &RentalCase) -> (r: bool)
    requires
        store.wf(),
    ensures
        r == store@.case_references_exist(*c),
{
    store.customers.get(&c.customer_id).is_some() && store.cars.get(&c.car_plate).is_some()
        && store.staff.get(&c.staff_id).is_some()
}

/// Every rental case, in the order of registration.
pub fn rental_cases_list(store: &Store) -> (r: &Vec<Entry<u64, RentalCase>>)
    requires
        store.wf(),
    ensures
        r@ == store.rental_cases.entries@,
{
    &store.rental_cases.entries
}

/// The rental case with the given id.
pub fn rental_cases_show<'a>(store: &'a Store, id: u64) -> (r: Result<&'a RentalCase, CrudError>)
    requires
        store.wf(),
    ensures
        r is Ok <==> store@.rental_cases.contains_key(id),
        r matches Ok(c) ==> *c == store@.rental_cases[id],
        r matches Err(e) ==> e == CrudError::NotFound,
{
    match store.rental_cases.get(&id) {
        Some(c) => Ok(c),
        None => Err(CrudError::NotFound),
    }
}

/// Registers a rental case under the next free id, which it returns.
pub fn rental_cases_new(store: &mut Store, new: RentalCase) -> (r: Result<u64, CrudError>)
    requires
        old(store).wf(),
    ensures
        final(store).wf(),
        created(old(store)@.rental_cases, old(store).rental_cases.next_id, old(store)@.case_references_exist(new), new, r, final(store)@.rental_cases),
        final(store)@ == (StoreView { rental_cases: final(store)@.rental_cases, ..old(store)@ }),
        final(store).next_ids() == old(store).next_ids().update(4, if r is Ok { (old(store).rental_cases.next_id + 1) as u64 } else { old(store).rental_cases.next_id }),
{
    if !references_exist(store, &new) {
        return Err(CrudError::ConstraintViolation);
    }
    store.rental_cases.insert_next(new)
}

/// Overwrites every column of the rental case with the given id.
pub fn rental_cases_update(store: &mut Store, id: u64, updated: RentalCase) -> (r: Result<Route, CrudError>)
    requires
        old(store).wf(),
    ensures
        final(store).wf(),
        replaced(old(store)@.rental_cases, id, old(store)@.case_references_exist(updated), updated, Route::RentalCaseList, r, final(store)@.rental_cases),
        final(store)@ == (StoreView { rental_cases: final(store)@.rental_cases, ..old(store)@ }),
        final(store).next_ids() == old(store).next_ids(),
{
    if store.rental_cases.get(&id).is_none() {
        return Err(CrudError::NotFound);
    }
    if !references_exist(store, &updated) {
        return Err(CrudError::ConstraintViolation);
    }
    match store.rental_cases.replace(&id, updated) {
        Ok(()) => Ok(Route::RentalCaseList),
        Err(e) => Err(e),
    }
}

/// Deletes the rental case with the given id.
pub fn rental_cases_delete(store: &mut Store, id: u64) -> (r: Result<Route, CrudError>)
    requires
        old(store).wf(),
    ensures
        final(store).wf(),
        removed(old(store)@.rental_cases, id, false, Route::RentalCaseList, r, final(store)@.rental_cases),
        final(store)@ == (StoreView { rental_cases: final(store)@.rental_cases, ..old(store)@ }),
        final(store).next_ids() == old(store).next_ids(),
{
    match store.rental_cases.remove(&id) {
        Ok(()) => Ok(Route::RentalCaseList),
        Err(e) => Err(e),
    }
}

/// Registers a batch of rental cases, all or none: when any row references
/// a missing customer, car or staff member, or the ids would run out, nothing
/// is written. Otherwise the rows get consecutive ids from the next free one.
pub fn rental_cases_import(store: &mut Store, rows: &Vec<RentalCase>) -> (r: Result<Route, CrudError>)
    requires
        old(store).wf(),
    ensures
        final(store).wf(),
        r is Ok <==> (forall|j: int| 0 <= j < rows@.len() ==> #[trigger] old(store)@.case_references_exist(rows@[j]))
            && old(store).rental_cases.next_id + rows@.len() < u64::MAX,
        r matches Err(e) ==> e == CrudError::ConstraintViolation && final(store)@ == old(store)@,
        r is Ok ==> {
            let first = old(store).rental_cases.next_id as int;
            let before = old(store)@.rental_cases;
            let after = final(store)@.rental_cases;
            &&& final(store)@ == (StoreView { rental_cases: after, ..old(store)@ })
            &&& forall|k: u64| #[trigger] after.contains_key(k)
                <==> before.contains_key(k) || (first <= k < first + rows@.len())
            &&& forall|k: u64| #[trigger] before.contains_key(k) ==> after[k] == before[k]
            &&& forall|j: int| 0 <= j < rows@.len() ==> #[trigger] after[(first + j) as u64] == rows@[j]
        },
{
    let mut i: usize = 0;
    while i < rows.len()
        invariant
            store.wf(),
            i <= rows@.len(),
            forall|j: int| 0 <= j < i ==> #[trigger] store@.case_references_exist(rows@[j]),
        decreases rows@.len() - i,
    {
        if !references_exist(store, &rows[i]) {
            return Err(CrudError::ConstraintViolation);
        }
        i = i + 1;
    }
    if rows.len() as u64 >= u64::MAX - store.rental_cases.next_id {
        return Err(CrudError::ConstraintViolation);
    }
    let ghost start = *store;
    let ghost first = store.rental_cases.next_id as int;
    let mut i: usize = 0;
    while i < rows.len()
        invariant
            store.wf(),
            i <= rows@.len(),
            first + rows@.len() < u64::MAX,
            start.wf(),
            first == start.rental_cases.next_id,
            store.rental_cases.next_id == first + i,
            forall|j: int| 0 <= j < rows@.len() ==> #[trigger] start@.case_references_exist(rows@[j]),
            store@ == (StoreView { rental_cases: store@.rental_cases, ..start@ }),
            forall|k: u64| #[trigger] store@.rental_cases.contains_key(k)
                <==> start@.rental_cases.contains_key(k) || (first <= k < first + i),
            forall|k: u64| #[trigger] start@.rental_cases.contains_key(k)
                ==> store@.rental_cases[k] == start@.rental_cases[k],
            forall|j: int| 0 <= j < i ==> #[trigger] store@.rental_cases[(first + j) as u64] == rows@[j],
        decreases rows@.len() - i,
    {
        let row = rows[i].duplicate();
        assert(start@.case_references_exist(rows@[i as int]));
        let r = store.rental_cases.insert_next(row);
        assert(r is Ok);
        proof {
            let id = (first + i) as u64;
            assert forall|k: u64| #[trigger] start@.rental_cases.contains_key(k)
                implies store@.rental_cases[k] == start@.rental_cases[k] by {
                assert(k < first);
            }
            assert forall|j: int| 0 <= j < i + 1 implies #[trigger] store@.rental_cases[(first + j) as u64] == rows@[j] by {
                if j < i {
                    assert((first + j) as u64 != id);
                }
            }
        }
        i = i + 1;
    }
    Ok(Route::RentalCaseList)
}

} // verus!
