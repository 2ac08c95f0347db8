use vstd::prelude::*;
use crate::crud::{created, removed, replaced};
use crate::error::{CrudError, Route};
use crate::store::{Manufacturer, Store, StoreView};
use crate::table::Entry;

verus! {

/// Every manufacturer, in the order of registration.
pub fn man_list(store: &Store) -> (r: &Vec<Entry<u64, Manufacturer>>)
    requires
        store.wf(),
    ensures
        r@ == store.manufacturers.entries@,
{
    &store.manufacturers.entries
}

/// The manufacturer with the given id.
pub fn man_show<'a>(store: &'a Store, id: u64) -> (r: Result<&'a Manufacturer, CrudError>)
    requires
        store.wf(),
    ensures
        r is Ok <==> store@.manufacturers.contains_key(id),
        r matches Ok(m) ==> *m == store@.manufacturers[id],
        r matches Err(e) ==> e == CrudError::NotFound,
{
    match store.manufacturers.get(&id) {
        Some(m) => Ok(m),
        None => Err(CrudError::NotFound),
    }
}

/// Registers a manufacturer under the next free id, which it returns.
pub fn man_new(store: &mut Store, new: Manufacturer) -> (r: Result<u64, CrudError>)
    requires
        old(store).wf(),
    ensures
        final(store).wf(),
        created(old(store)@.manufacturers, old(store).manufacturers.next_id, true, new, r, final(store)@.manufacturers),
        final(store)@ == (StoreView { manufacturers: final(store)@.manufacturers, ..old(store)@ }),
        final(store).next_ids() == old(store).next_ids().update(1, if r is Ok { (old(store).manufacturers.next_id + 1) as u64 } else { old(store).manufacturers.next_id }),
{
    store.manufacturers.insert_next(new)
}

/// Overwrites every column of the manufacturer with the given id.
pub fn man_update(store: &mut Store, id: u64, updated: Manufacturer) -> (r: Result<Route, CrudError>)
    requires
        old(store).wf(),
    ensures
        final(store).wf(),
        replaced(old(store)@.manufacturers, id, true, updated, Route::ManufacturerList, r, final(store)@.manufacturers),
        final(store)@ == (StoreView { manufacturers: final(store)@.manufacturers, ..old(store)@ }),
        final(store).next_ids() == old(store).next_ids(),
{
    match store.manufacturers.replace(&id, updated) {
        Ok(()) => Ok(Route::ManufacturerList),
        Err(e) => Err(e),
    }
}

/// Deletes the manufacturer with the given id, unless a car model is of it.
pub fn man_delete(store: &mut Store, id: u64) -> (r: Result<Route, CrudError>)
    requires
        old(store).wf(),
    ensures
        final(store).wf(),
        removed(old(store)@.manufacturers, id, old(store)@.manufacturer_in_use(id), Route::ManufacturerList, r, final(store)@.manufacturers),
        final(store)@ == (StoreView { manufacturers: final(store)@.manufacturers, ..old(store)@ }),
        final(store).next_ids() == old(store).next_ids(),
{
    if store.manufacturers.get(&id).is_none() {
        return Err(CrudError::NotFound);
    }
    if store.has_models_of(id) {
        return Err(CrudError::ConstraintViolation);
    }
    match store.manufacturers.remove(&id) {
        Ok(()) => Ok(Route::ManufacturerList),
        Err(e) => Err(e),
    }
}

} // verus!
