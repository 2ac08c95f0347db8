use vstd::prelude::*;
use crate::crud::removed;
use crate::error::{CrudError, Route};
use crate::price::{Decimal, Price, price_from_decimal, hundredths, fits_i64};
use crate::store::{Car, CarModel, Store, StoreView};
use crate::table::Entry;

verus! {

/// The form that registers a new car.
pub struct CarEntityForm {
    pub plate_number: String,
    pub car_model_id: u64,
    pub available: bool,
    pub condition: String,
    pub price_per_day: Decimal,
}

/// The form that overwrites the columns of an existing car.
pub struct CarForm {
    pub car_model_id: u64,
    pub available: bool,
    pub condition: String,
    pub price_per_day: Decimal,
}

/// The decimal, cut to two digits, fits the stored price.
pub open spec fn price_valid(d: Decimal) -> bool {
    fits_i64(hundredths(d.mantissa as int, d.scale as int))
}

/// The price stored for a submitted decimal: two digits, the rest dropped.
pub open spec fn stored_price(d: Decimal) -> Price {
    Price { cents: hundredths(d.mantissa as int, d.scale as int) as i64 }
}

/// The row that the submitted columns are stored as.
pub open spec fn car_row(car_model_id: u64, available: bool, condition: String, price: Decimal) -> Car {
    Car { car_model_id, available, condition, price_per_day: stored_price(price) }
}

/// The car with the given plate number.
pub fn car_show<'a>(store: &'a Store, uid: &String) -> (r: Result<&'a Car, CrudError>)
    requires
        store.wf(),
    ensures
        r is Ok <==> store@.cars.contains_key(uid@),
        r matches Ok(c) ==> *c == store@.cars[uid@],
        r matches Err(e) ==> e == CrudError::NotFound,
{
    match store.cars.get(uid) {
        Some(c) => Ok(c),
        None => Err(CrudError::NotFound),
    }
}

/// What registering a car does to the store and what it returns.
pub open spec fn car_new_post(before: StoreView, new: CarEntityForm, r: Result<Route, CrudError>, after: StoreView) -> bool {
    &&& (r is Err ==> after == before)
    &&& (!price_valid(new.price_per_day) ==> r == Err::<Route, CrudError>(CrudError::Validation))
    &&& price_valid(new.price_per_day) ==> {
        if !before.car_models.contains_key(new.car_model_id)
            || before.cars.contains_key(new.plate_number@) {
            r == Err::<Route, CrudError>(CrudError::ConstraintViolation)
        } else {
            &&& r == Ok::<Route, CrudError>(Route::CarList)
            &&& after == (StoreView {
                cars: before.cars.insert(
                    new.plate_number@,
                    car_row(new.car_model_id, new.available, new.condition, new.price_per_day),
                ),
                ..before
            })
        }
    }
}

/// Registers a car. The price is quantized first; then the model must exist
/// and the plate number must be new.
pub fn car_new(store: &mut Store, new: CarEntityForm) -> (r: Result<Route, CrudError>)
    requires
        old(store).wf(),
    ensures
        final(store).wf(),
        car_new_post(old(store)@, new, r, final(store)@),
        final(store).next_ids() == old(store).next_ids(),
{
    let price = match price_from_decimal(new.price_per_day) {
        Ok(p) => p,
        Err(e) => return Err(e),
    };
    if store.car_models.get(&new.car_model_id).is_none() {
        return Err(CrudError::ConstraintViolation);
    }
    let ghost pl = new.plate_number@;
    let converted = Car {
        car_model_id: new.car_model_id,
        available: new.available,
        condition: new.condition,
        price_per_day: price,
    };
    match store.cars.insert(new.plate_number, converted) {
        Ok(()) => {
            Ok(Route::CarList)
        },
        Err(e) => Err(e),
    }
}

/// What overwriting a car does to the store and what it returns.
pub open spec fn car_update_post(before: StoreView, uid: Seq<char>, updated: CarForm, r: Result<Route, CrudError>, after: StoreView) -> bool {
    &&& (r is Err ==> after == before)
    &&& (!price_valid(updated.price_per_day) ==> r == Err::<Route, CrudError>(CrudError::Validation))
    &&& price_valid(updated.price_per_day) ==> {
        if !before.cars.contains_key(uid) {
            r == Err::<Route, CrudError>(CrudError::NotFound)
        } else if !before.car_models.contains_key(updated.car_model_id) {
            r == Err::<Route, CrudError>(CrudError::ConstraintViolation)
        } else {
            &&& r == Ok::<Route, CrudError>(Route::CarList)
            &&& after == (StoreView {
                cars: before.cars.insert(
                    uid,
                    car_row(updated.car_model_id, updated.available, updated.condition, updated.price_per_day),
                ),
                ..before
            })
        }
    }
}

/// Overwrites every column of the car with the given plate number.
pub fn car_update(store: &mut Store, uid: &String, updated: CarForm) -> (r: Result<Route, CrudError>)
    requires
        old(store).wf(),
    ensures
        final(store).wf(),
        car_update_post(old(store)@, uid@, updated, r, final(store)@),
        final(store).next_ids() == old(store).next_ids(),
{
    let price = match price_from_decimal(updated.price_per_day) {
        Ok(p) => p,
        Err(e) => return Err(e),
    };
    if store.cars.get(uid).is_none() {
        return Err(CrudError::NotFound);
    }
    if store.car_models.get(&updated.car_model_id).is_none() {
        return Err(CrudError::ConstraintViolation);
    }
    let converted = Car {
        car_model_id: updated.car_model_id,
        available: updated.available,
        condition: updated.condition,
        price_per_day: price,
    };
    match store.cars.replace(uid, converted) {
        Ok(()) => {
            Ok(Route::CarList)
        },
        Err(e) => Err(e),
    }
}

/// Deletes the car with the given plate number, unless a rental case is of it.
pub fn car_delete(store: &mut Store, uid: &String) -> (r: Result<Route, CrudError>)
    requires
        old(store).wf(),
    ensures
        final(store).wf(),
        removed(old(store)@.cars, uid@, old(store)@.car_in_use(uid@), Route::CarList, r, final(store)@.cars),
        final(store)@ == (StoreView { cars: final(store)@.cars, ..old(store)@ }),
        final(store).next_ids() == old(store).next_ids(),
{
    if store.cars.get(uid).is_none() {
        return Err(CrudError::NotFound);
    }
    if store.has_cases_of_car(uid) {
        return Err(CrudError::ConstraintViolation);
    }
    match store.cars.remove(uid) {
        Ok(()) => {
            Ok(Route::CarList)
        },
        Err(e) => Err(e),
    }
}

/// The car models to choose from when registering a car.
pub fn car_add_menu(store: &Store) -> (r: &Vec<Entry<u64, CarModel>>)
    requires
        store.wf(),
    ensures
        r@ == store.car_models.entries@,
{
    &store.car_models.entries
}

/// The car with the given plate number, and the car models to choose from.
pub fn car_update_menu<'a>(store: &'a Store, uid: &String) -> (r: Result<(&'a Car, &'a Vec<Entry<u64, CarModel>>), CrudError>)
    requires
        store.wf(),
    ensures
        r is Ok <==> store@.cars.contains_key(uid@),
        r matches Ok((c, models)) ==> *c == store@.cars[uid@] && models@ == store.car_models.entries@,
        r matches Err(e) ==> e == CrudError::NotFound,
{
    let data = match car_show(store, uid) {
        Ok(c) => c,
        Err(e) => return Err(e),
    };
    Ok((data, car_add_menu(store)))
}

/// Every car, in the order of registration.
pub fn car_list(store: &Store) -> (r: &Vec<Entry<String, Car>>)
    requires
        store.wf(),
    ensures
        r@ == store.cars.entries@,
{
    &store.cars.entries
}

} // verus!
