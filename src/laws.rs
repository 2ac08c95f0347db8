use vstd::prelude::*;
use crate::car::{car_new_post, car_row, car_update_post, price_valid, CarEntityForm, CarForm};
use crate::error::{CrudError, Route};
use crate::crud::{created, removed, replaced};
use crate::price::hundredths;
use crate::store::StoreView;

verus! {

/// A car registered from a valid form reads back with every submitted
/// column, its price being the submitted one cut to two decimal digits.
pub proof fn car_created_reads_back(before: StoreView, new: CarEntityForm, r: Result<Route, CrudError>, after: StoreView)
    requires
        car_new_post(before, new, r, after),
        price_valid(new.price_per_day),
        before.car_models.contains_key(new.car_model_id),
        !before.cars.contains_key(new.plate_number@),
    ensures
        r is Ok,
        after.cars.contains_key(new.plate_number@),
        after.cars[new.plate_number@] == car_row(new.car_model_id, new.available, new.condition, new.price_per_day),
        after.cars[new.plate_number@].price_per_day.cents
            == hundredths(new.price_per_day.mantissa as int, new.price_per_day.scale as int),
{
}

/// A price that does not fit two-digit storage is refused before anything
/// is written.
pub proof fn car_with_unstorable_price_is_refused(before: StoreView, new: CarEntityForm, r: Result<Route, CrudError>, after: StoreView)
    requires
        car_new_post(before, new, r, after),
        !price_valid(new.price_per_day),
    ensures
        r == Err::<Route, CrudError>(CrudError::Validation),
        after == before,
{
}

/// An update of a car replaces the whole row: afterwards it reads back as
/// the submitted columns alone, whatever it held before.
pub proof fn car_update_replaces_row(before: StoreView, uid: Seq<char>, updated: CarForm, r: Result<Route, CrudError>, after: StoreView)
    requires
        car_update_post(before, uid, updated, r, after),
        before.cars.contains_key(uid),
        price_valid(updated.price_per_day),
        before.car_models.contains_key(updated.car_model_id),
    ensures
        r is Ok,
        after.cars.contains_key(uid),
        after.cars[uid] == car_row(updated.car_model_id, updated.available, updated.condition, updated.price_per_day),
{
}

/// Any row registered under a surrogate id reads back as submitted, under
/// the id that was handed out.
pub proof fn created_row_reads_back<R>(before: Map<u64, R>, next: u64, allowed: bool, new: R, r: Result<u64, CrudError>, after: Map<u64, R>)
    requires
        created(before, next, allowed, new, r, after),
        r is Ok,
    ensures
        r == Ok::<u64, CrudError>(next),
        after.contains_key(next),
        after[next] == new,
{
}

/// An update of any row replaces it whole: afterwards its key reads back
/// the submitted row, nothing of the old one.
pub proof fn update_replaces_row<K, R>(before: Map<K, R>, key: K, allowed: bool, new: R, route: Route, r: Result<Route, CrudError>, after: Map<K, R>)
    requires
        replaced(before, key, allowed, new, route, r, after),
        before.contains_key(key),
        allowed,
    ensures
        r == Ok::<Route, CrudError>(route),
        after.contains_key(key),
        after[key] == new,
{
}

/// After any row was deleted, looking its key up finds nothing.
pub proof fn deleted_row_is_not_found<K, R>(before: Map<K, R>, key: K, in_use: bool, route: Route, r: Result<Route, CrudError>, after: Map<K, R>)
    requires
        removed(before, key, in_use, route, r, after),
        r is Ok,
    ensures
        !after.contains_key(key),
{
}

/// Deleting a manufacturer that a car model is of fails with a constraint
/// violation, and both rows stay as they were.
pub proof fn referenced_manufacturer_is_kept(before: StoreView, id: u64, model: u64, r: Result<Route, CrudError>, after: StoreView)
    requires
        removed(before.manufacturers, id, before.manufacturer_in_use(id), Route::ManufacturerList, r, after.manufacturers),
        after == (StoreView { manufacturers: after.manufacturers, ..before }),
        before.manufacturers.contains_key(id),
        before.car_models.contains_key(model),
        before.car_models[model].manufacturer_id == id,
    ensures
        r == Err::<Route, CrudError>(CrudError::ConstraintViolation),
        after.manufacturers.contains_key(id) && after.manufacturers[id] == before.manufacturers[id],
        after.car_models.contains_key(model) && after.car_models[model] == before.car_models[model],
{
    assert(before.manufacturer_in_use(id));
}

} // verus!
