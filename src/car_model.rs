use vstd::prelude::*;
use crate::crud::{created, removed, replaced};
use crate::error::{CrudError, Route};
use crate::store::{CarModel, Manufacturer, Store, StoreView};
use crate::table::Entry;

verus! {

/// Every car model, in the order of registration.
pub fn car_mod_list(store: &Store) -> (r: &Vec<Entry<u64, CarModel>>)
    requires
        store.wf(),
    ensures
        r@ == store.car_models.entries@,
{
    &store.car_models.entries
}

/// The car model with the given id.
pub fn car_mod_show<'a>(store: &'a Store, id: u64) -> (r: Result<&'a CarModel, CrudError>)
    requires
        store.wf(),
    ensures
        r is Ok <==> store@.car_models.contains_key(id),
        r matches Ok(m) ==> *m == store@.car_models[id],
        r matches Err(e) ==> e == CrudError::NotFound,
{
    match store.car_models.get(&id) {
        Some(m) => Ok(m),
        None => Err(CrudError::NotFound),
    }
}

/// The manufacturers to choose from when registering a car model.
pub fn car_mod_add_menu(store: &Store) -> (r: &Vec<Entry<u64, Manufacturer>>)
    requires
        store.wf(),
    ensures
        r@ == store.manufacturers.entries@,
{
    &store.manufacturers.entries
}

/// The car model with the given id, and the manufacturers to choose from.
pub fn car_mod_update_menu<'a>(store: &'a Store, id: u64) -> (r: Result<(&'a CarModel, &'a Vec<Entry<u64, Manufacturer>>), CrudError>)
    requires
        store.wf(),
    ensures
        r is Ok <==> store@.car_models.contains_key(id),
        r matches Ok((m, makers)) ==> *m == store@.car_models[id] && makers@ == store.manufacturers.entries@,
        r matches Err(e) ==> e == CrudError::NotFound,
{
    let data = match car_mod_show(store, id) {
        Ok(m) => m,
        Err(e) => return Err(e),
    };
    Ok((data, car_mod_add_menu(store)))
}

/// Registers a car model of an existing manufacturer under the next free id,
/// which it returns.
pub fn car_mod_new(store: &mut Store, new: CarModel) -> (r: Result<u64, CrudError>)
    requires
        old(store).wf(),
    ensures
        final(store).wf(),
        created(old(store)@.car_models, old(store).car_models.next_id, old(store)@.manufacturers.contains_key(new.manufacturer_id), new, r, final(store)@.car_models),
        final(store)@ == (StoreView { car_models: final(store)@.car_models, ..old(store)@ }),
        final(store).next_ids() == old(store).next_ids().update(2, if r is Ok { (old(store).car_models.next_id + 1) as u64 } else { old(store).car_models.next_id }),
{
    if store.manufacturers.get(&new.manufacturer_id).is_none() {
        return Err(CrudError::ConstraintViolation);
    }
    store.car_models.insert_next(new)
}

/// Overwrites every column of the car model with the given id.
pub fn car_mod_update(store: &mut Store, id: u64, updated: CarModel) -> (r: Result<Route, CrudError>)
    requires
        old(store).wf(),
    ensures
        final(store).wf(),
        replaced(old(store)@.car_models, id, old(store)@.manufacturers.contains_key(updated.manufacturer_id), updated, Route::CarModelList, r, final(store)@.car_models),
        final(store)@ == (StoreView { car_models: final(store)@.car_models, ..old(store)@ }),
        final(store).next_ids() == old(store).next_ids(),
{
    if store.car_models.get(&id).is_none() {
        return Err(CrudError::NotFound);
    }
    if store.manufacturers.get(&updated.manufacturer_id).is_none() {
        return Err(CrudError::ConstraintViolation);
    }
    match store.car_models.replace(&id, updated) {
        Ok(()) => Ok(Route::CarModelList),
        Err(e) => Err(e),
    }
}

/// Deletes the car model with the given id, unless a car is of it.
pub fn car_mod_delete(store: &mut Store, id: u64) -> (r: Result<Route, CrudError>)
    requires
        old(store).wf(),
    ensures
        final(store).wf(),
        removed(old(store)@.car_models, id, old(store)@.car_model_in_use(id), Route::CarModelList, r, final(store)@.car_models),
        final(store)@ == (StoreView { car_models: final(store)@.car_models, ..old(store)@ }),
        final(store).next_ids() == old(store).next_ids(),
{
    if store.car_models.get(&id).is_none() {
        return Err(CrudError::NotFound);
    }
    if store.has_cars_of(id) {
        return Err(CrudError::ConstraintViolation);
    }
    match store.car_models.remove(&id) {
        Ok(()) => Ok(Route::CarModelList),
        Err(e) => Err(e),
    }
}

} // verus!
