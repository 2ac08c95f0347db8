use vstd::prelude::*;
use crate::crud::{created, removed, replaced};
use crate::error::{CrudError, Route};
use crate::store::{Customer, Store, StoreView};
use crate::table::Entry;

verus! {

/// Every customer, in the order of registration.
pub fn customer_list(store: &Store) -> (r: &Vec<Entry<u64, Customer>>)
    requires
        store.wf(),
    ensures
        r@ == store.customers.entries@,
{
    &store.customers.entries
}

/// The customer with the given id.
pub fn customer_show<'a>(store: &'a Store, id: u64) -> (r: Result<&'a Customer, CrudError>)
    requires
        store.wf(),
    ensures
        r is Ok <==> store@.customers.contains_key(id),
        r matches Ok(c) ==> *c == store@.customers[id],
        r matches Err(e) ==> e == CrudError::NotFound,
{
    match store.customers.get(&id) {
        Some(c) => Ok(c),
        None => Err(CrudError::NotFound),
    }
}

/// The ids of the customer's rental cases, in the order of registration.
pub fn customer_rental_cases(store: &Store, id: u64) -> (r: Result<Vec<u64>, CrudError>)
    requires
        store.wf(),
    ensures
        r is Ok <==> store@.customers.contains_key(id),
        r matches Err(e) ==> e == CrudError::NotFound,
        r matches Ok(ks) ==> {
            &&& forall|j: int| 0 <= j < ks@.len() ==> #[trigger] store@.rental_cases.contains_key(ks@[j])
                && store@.rental_cases[ks@[j]].customer_id == id
            &&& forall|k: u64| #[trigger] store@.rental_cases.contains_key(k)
                && store@.rental_cases[k].customer_id == id ==> ks@.contains(k)
        },
{
    if store.customers.get(&id).is_none() {
        return Err(CrudError::NotFound);
    }
    let t = &store.rental_cases;
    let mut ks: Vec<u64> = Vec::new();
    let mut i: usize = 0;
    while i < t.entries.len()
        invariant
            t == &store.rental_cases,
            t.wf(),
            i <= t.entries@.len(),
            forall|j: int| 0 <= j < ks@.len() ==> #[trigger] t@.contains_key(ks@[j])
                && t@[ks@[j]].customer_id == id,
            forall|j: int| 0 <= j < i && #[trigger] t.entries@[j].row.customer_id == id
                ==> ks@.contains(t.entries@[j].key),
        decreases t.entries@.len() - i,
    {
        if t.entries[i].row.customer_id == id {
            let k = t.entries[i].key;
            assert(t@.contains_key(t.entries@[i as int].key@) && t@[t.entries@[i as int].key@] == t.entries@[i as int].row);
            let ghost before = ks@;
            ks.push(k);
            assert(ks@ == before.push(k));
            assert(ks@[ks@.len() - 1] == k);
            assert forall|j: int| 0 <= j < ks@.len() implies #[trigger] t@.contains_key(ks@[j])
                && t@[ks@[j]].customer_id == id by {
                if j < before.len() {
                    assert(ks@[j] == before[j]);
                }
            }
            assert forall|j: int| 0 <= j <= i && #[trigger] t.entries@[j].row.customer_id == id
                implies ks@.contains(t.entries@[j].key) by {
                if j < i {
                    assert(before.contains(t.entries@[j].key));
                    let w = choose|w: int| 0 <= w < before.len() && before[w] == t.entries@[j].key;
                    assert(ks@[w] == t.entries@[j].key);
                } else {
                    assert(ks@[ks@.len() - 1] == t.entries@[j].key);
                }
            }
        }
        i = i + 1;
    }
    assert forall|k: u64| #[trigger] store@.rental_cases.contains_key(k)
        && store@.rental_cases[k].customer_id == id implies ks@.contains(k) by {
        let j = choose|j: int| 0 <= j < t.entries@.len() && #[trigger] t.entries@[j].key@ == k;
        assert(t@[t.entries@[j].key@] == t.entries@[j].row);
        assert(t.entries@[j].row.customer_id == id);
    }
    Ok(ks)
}

/// Registers a customer under the next free id, which it returns.
pub fn customer_new(store: &mut Store, new: Customer) -> (r: Result<u64, CrudError>)
    requires
        old(store).wf(),
    ensures
        final(store).wf(),
        created(old(store)@.customers, old(store).customers.next_id, true, new, r, final(store)@.customers),
        final(store)@ == (StoreView { customers: final(store)@.customers, ..old(store)@ }),
        final(store).next_ids() == old(store).next_ids().update(3, if r is Ok { (old(store).customers.next_id + 1) as u64 } else { old(store).customers.next_id }),
{
    store.customers.insert_next(new)
}

/// Overwrites every column of the customer with the given id.
pub fn customer_update(store: &mut Store, id: u64, updated: Customer) -> (r: Result<Route, CrudError>)
    requires
        old(store).wf(),
    ensures
        final(store).wf(),
        replaced(old(store)@.customers, id, true, updated, Route::CustomerList, r, final(store)@.customers),
        final(store)@ == (StoreView { customers: final(store)@.customers, ..old(store)@ }),
        final(store).next_ids() == old(store).next_ids(),
{
    match store.customers.replace(&id, updated) {
        Ok(()) => Ok(Route::CustomerList),
        Err(e) => Err(e),
    }
}

/// Deletes the customer with the given id, unless a rental case is theirs.
pub fn customer_delete(store: &mut Store, id: u64) -> (r: Result<Route, CrudError>)
    requires
        old(store).wf(),
    ensures
        final(store).wf(),
        removed(old(store)@.customers, id, old(store)@.customer_in_use(id), Route::CustomerList, r, final(store)@.customers),
        final(store)@ == (StoreView { customers: final(store)@.customers, ..old(store)@ }),
        final(store).next_ids() == old(store).next_ids(),
{
    if store.customers.get(&id).is_none() {
        return Err(CrudError::NotFound);
    }
    if store.has_cases_of_customer(id) {
        return Err(CrudError::ConstraintViolation);
    }
    match store.customers.remove(&id) {
        Ok(()) => Ok(Route::CustomerList),
        Err(e) => Err(e),
    }
}

} // verus!
