use car_rental::auth::{authenticate, index, post_login, LoginError};
use car_rental::car::{car_add_menu, car_delete, car_list, car_new, car_show, car_update, car_update_menu, CarEntityForm, CarForm};
use car_rental::car_model::{car_mod_delete, car_mod_new, car_mod_show, car_mod_update};
use car_rental::customer::{customer_delete, customer_new, customer_rental_cases, customer_show, customer_update};
use car_rental::error::{CrudError, Route};
use car_rental::manufacturer::{man_delete, man_list, man_new, man_show, man_update};
use car_rental::price::{price_from_decimal, Decimal, Price};
use car_rental::rental_cases::{rental_cases_delete, rental_cases_import, rental_cases_new, rental_cases_show};
use car_rental::staff::{data, delete_data, new_data, update_data};
use car_rental::store::{CarModel, Customer, Manufacturer, RentalCase, Staff, Store};

fn s(x: &str) -> String {
    x.to_string()
}

fn dec(mantissa: i128, scale: i64) -> Decimal {
    Decimal { mantissa, scale }
}

fn car_form(plate: &str, model: u64, price: Decimal) -> CarEntityForm {
    CarEntityForm { plate_number: s(plate), car_model_id: model, available: true, condition: s("good"), price_per_day: price }
}

/// A store with Toyota (1), Corolla (1), car ABC123, a staff member (1) and a customer (1).
fn seeded() -> Store {
    let mut st = Store::new();
    assert_eq!(man_new(&mut st, Manufacturer { name: s("Toyota"), country: s("Japan") }), Ok(1));
    assert_eq!(car_mod_new(&mut st, CarModel { name: s("Corolla"), manufacturer_id: 1 }), Ok(1));
    assert_eq!(car_new(&mut st, car_form("ABC123", 1, dec(49999, 3))), Ok(Route::CarList));
    assert_eq!(new_data(&mut st, Staff { email: s("ann@rent.example"), password: s("pw1"), name: s("Ann") }), Ok(1));
    assert_eq!(customer_new(&mut st, Customer { name: s("Bob"), email: s("bob@example.org"), phone: s("555") }), Ok(1));
    st
}

fn case(customer: u64, plate: &str, staff: u64) -> RentalCase {
    RentalCase {
        customer_id: customer,
        car_plate: s(plate),
        staff_id: staff,
        start_date: s("2024-01-01"),
        end_date: s("2024-01-05"),
        status: s("open"),
    }
}

#[test]
fn price_is_cut_to_two_digits() {
    assert_eq!(price_from_decimal(dec(49999, 3)), Ok(Price { cents: 4999 }));
    assert_eq!(price_from_decimal(dec(1995, 3)), Ok(Price { cents: 199 }));
    assert_eq!(price_from_decimal(dec(-12345, 3)), Ok(Price { cents: -1234 }));
    assert_eq!(price_from_decimal(dec(4999, 2)), Ok(Price { cents: 4999 }));
    assert_eq!(price_from_decimal(dec(5, -1)), Ok(Price { cents: 5000 }));
    assert_eq!(price_from_decimal(dec(7, 0)), Ok(Price { cents: 700 }));
}

#[test]
fn price_edges() {
    assert_eq!(price_from_decimal(dec(123456789, 50)), Ok(Price { cents: 0 }));
    assert_eq!(price_from_decimal(dec(0, -30)), Ok(Price { cents: 0 }));
    assert_eq!(price_from_decimal(dec(1, -30)), Err(CrudError::Validation));
    assert_eq!(price_from_decimal(dec(i64::MAX as i128, 2)), Ok(Price { cents: i64::MAX }));
    assert_eq!(price_from_decimal(dec(i64::MAX as i128 + 1, 2)), Err(CrudError::Validation));
    assert_eq!(price_from_decimal(dec(1, -16)), Ok(Price { cents: 1_000_000_000_000_000_000 }));
    assert_eq!(price_from_decimal(dec(1, -17)), Err(CrudError::Validation));
}

#[test]
fn example_scenario_toyota_corolla() {
    let st = seeded();
    assert_eq!(man_show(&st, 1).unwrap().name, "Toyota");
    let model = car_mod_show(&st, 1).unwrap();
    assert_eq!(model.name, "Corolla");
    assert_eq!(model.manufacturer_id, 1);
    let car = car_show(&st, &s("ABC123")).unwrap();
    assert_eq!(car.price_per_day, Price { cents: 4999 });
    assert_eq!(car.car_model_id, 1);
}

#[test]
fn car_reads_back_as_submitted() {
    let mut st = seeded();
    let form = CarEntityForm { plate_number: s("XYZ9"), car_model_id: 1, available: false, condition: s("scratched"), price_per_day: dec(1250, 2) };
    assert_eq!(car_new(&mut st, form), Ok(Route::CarList));
    let car = car_show(&st, &s("XYZ9")).unwrap();
    assert_eq!(car.car_model_id, 1);
    assert!(!car.available);
    assert_eq!(car.condition, "scratched");
    assert_eq!(car.price_per_day.cents, 1250);
    assert_eq!(car_list(&st).len(), 2);
    assert_eq!(car_list(&st)[1].key, "XYZ9");
}

#[test]
fn car_new_errors() {
    let mut st = seeded();
    assert_eq!(car_new(&mut st, car_form("NEW1", 7, dec(100, 2))), Err(CrudError::ConstraintViolation));
    assert_eq!(car_new(&mut st, car_form("ABC123", 1, dec(100, 2))), Err(CrudError::ConstraintViolation));
    assert_eq!(car_new(&mut st, car_form("NEW1", 1, dec(1, -40))), Err(CrudError::Validation));
    assert_eq!(car_list(&st).len(), 1);
}

#[test]
fn car_update_replaces_every_column() {
    let mut st = seeded();
    assert_eq!(car_mod_new(&mut st, CarModel { name: s("Yaris"), manufacturer_id: 1 }), Ok(2));
    let form = CarForm { car_model_id: 2, available: false, condition: s("worn"), price_per_day: dec(3, 0) };
    assert_eq!(car_update(&mut st, &s("ABC123"), form), Ok(Route::CarList));
    let car = car_show(&st, &s("ABC123")).unwrap();
    assert_eq!(car.car_model_id, 2);
    assert!(!car.available);
    assert_eq!(car.condition, "worn");
    assert_eq!(car.price_per_day.cents, 300);
}

#[test]
fn car_update_errors() {
    let mut st = seeded();
    let form = CarForm { car_model_id: 1, available: true, condition: s("ok"), price_per_day: dec(1, 0) };
    assert_eq!(car_update(&mut st, &s("NOPE"), form), Err(CrudError::NotFound));
    let form = CarForm { car_model_id: 9, available: true, condition: s("ok"), price_per_day: dec(1, 0) };
    assert_eq!(car_update(&mut st, &s("ABC123"), form), Err(CrudError::ConstraintViolation));
    let form = CarForm { car_model_id: 1, available: true, condition: s("ok"), price_per_day: dec(1, -30) };
    assert_eq!(car_update(&mut st, &s("ABC123"), form), Err(CrudError::Validation));
    assert_eq!(car_show(&st, &s("ABC123")).unwrap().condition, "good");
}

#[test]
fn car_delete_then_show_is_not_found() {
    let mut st = seeded();
    assert_eq!(car_delete(&mut st, &s("ABC123")), Ok(Route::CarList));
    assert!(matches!(car_show(&st, &s("ABC123")), Err(CrudError::NotFound)));
    assert_eq!(car_delete(&mut st, &s("ABC123")), Err(CrudError::NotFound));
}

#[test]
fn car_menus() {
    let st = seeded();
    assert_eq!(car_add_menu(&st).len(), 1);
    let (car, models) = car_update_menu(&st, &s("ABC123")).unwrap();
    assert_eq!(car.price_per_day.cents, 4999);
    assert_eq!(models[0].row.name, "Corolla");
    assert!(matches!(car_update_menu(&st, &s("NONE")), Err(CrudError::NotFound)));
}

#[test]
fn referenced_manufacturer_cannot_be_deleted() {
    let mut st = seeded();
    assert_eq!(man_delete(&mut st, 1), Err(CrudError::ConstraintViolation));
    assert_eq!(man_show(&st, 1).unwrap().name, "Toyota");
    assert_eq!(car_mod_show(&st, 1).unwrap().name, "Corolla");
    assert_eq!(car_mod_delete(&mut st, 1), Err(CrudError::ConstraintViolation));
    assert_eq!(car_delete(&mut st, &s("ABC123")), Ok(Route::CarList));
    assert_eq!(car_mod_delete(&mut st, 1), Ok(Route::CarModelList));
    assert_eq!(man_delete(&mut st, 1), Ok(Route::ManufacturerList));
    assert!(matches!(man_show(&st, 1), Err(CrudError::NotFound)));
}

#[test]
fn manufacturer_crud() {
    let mut st = Store::new();
    assert_eq!(man_new(&mut st, Manufacturer { name: s("Ford"), country: s("USA") }), Ok(1));
    assert_eq!(man_new(&mut st, Manufacturer { name: s("Kia"), country: s("Korea") }), Ok(2));
    assert_eq!(man_update(&mut st, 2, Manufacturer { name: s("Hyundai"), country: s("South Korea") }), Ok(Route::ManufacturerList));
    let m = man_show(&st, 2).unwrap();
    assert_eq!((m.name.as_str(), m.country.as_str()), ("Hyundai", "South Korea"));
    assert_eq!(man_update(&mut st, 5, Manufacturer { name: s("X"), country: s("Y") }), Err(CrudError::NotFound));
    assert_eq!(man_delete(&mut st, 1), Ok(Route::ManufacturerList));
    assert_eq!(man_list(&st).len(), 1);
    assert_eq!(man_new(&mut st, Manufacturer { name: s("Fiat"), country: s("Italy") }), Ok(3));
}

#[test]
fn car_model_crud() {
    let mut st = seeded();
    assert_eq!(car_mod_new(&mut st, CarModel { name: s("Ghost"), manufacturer_id: 4 }), Err(CrudError::ConstraintViolation));
    assert_eq!(car_mod_update(&mut st, 1, CarModel { name: s("Corolla E"), manufacturer_id: 4 }), Err(CrudError::ConstraintViolation));
    assert_eq!(car_mod_update(&mut st, 3, CarModel { name: s("Z"), manufacturer_id: 1 }), Err(CrudError::NotFound));
    assert_eq!(car_mod_update(&mut st, 1, CarModel { name: s("Corolla E"), manufacturer_id: 1 }), Ok(Route::CarModelList));
    assert_eq!(car_mod_show(&st, 1).unwrap().name, "Corolla E");
}

#[test]
fn customer_crud_and_cases() {
    let mut st = seeded();
    assert_eq!(customer_new(&mut st, Customer { name: s("Cy"), email: s("cy@example.org"), phone: s("777") }), Ok(2));
    assert_eq!(rental_cases_new(&mut st, case(1, "ABC123", 1)), Ok(1));
    assert_eq!(rental_cases_new(&mut st, case(2, "ABC123", 1)), Ok(2));
    assert_eq!(rental_cases_new(&mut st, case(1, "ABC123", 1)), Ok(3));
    assert_eq!(customer_rental_cases(&st, 1), Ok(vec![1, 3]));
    assert_eq!(customer_rental_cases(&st, 2), Ok(vec![2]));
    assert_eq!(customer_rental_cases(&st, 8), Err(CrudError::NotFound));
    assert_eq!(customer_delete(&mut st, 1), Err(CrudError::ConstraintViolation));
    assert_eq!(customer_update(&mut st, 1, Customer { name: s("Robert"), email: s("r@example.org"), phone: s("1") }), Ok(Route::CustomerList));
    assert_eq!(customer_show(&st, 1).unwrap().name, "Robert");
    assert_eq!(customer_update(&mut st, 9, Customer { name: s("N"), email: s("n"), phone: s("n") }), Err(CrudError::NotFound));
    assert_eq!(rental_cases_delete(&mut st, 2), Ok(Route::RentalCaseList));
    assert_eq!(customer_delete(&mut st, 2), Ok(Route::CustomerList));
    assert!(matches!(customer_show(&st, 2), Err(CrudError::NotFound)));
}

#[test]
fn rental_case_references_are_checked() {
    let mut st = seeded();
    assert_eq!(rental_cases_new(&mut st, case(5, "ABC123", 1)), Err(CrudError::ConstraintViolation));
    assert_eq!(rental_cases_new(&mut st, case(1, "NOPE", 1)), Err(CrudError::ConstraintViolation));
    assert_eq!(rental_cases_new(&mut st, case(1, "ABC123", 4)), Err(CrudError::ConstraintViolation));
    assert_eq!(rental_cases_new(&mut st, case(1, "ABC123", 1)), Ok(1));
    assert_eq!(car_delete(&mut st, &s("ABC123")), Err(CrudError::ConstraintViolation));
    assert_eq!(delete_data(&mut st, 1), Err(CrudError::ConstraintViolation));
    assert_eq!(rental_cases_show(&st, 1).unwrap().status, "open");
}

#[test]
fn rental_case_import_is_all_or_nothing() {
    let mut st = seeded();
    let bad = vec![case(1, "ABC123", 1), case(1, "GONE", 1)];
    assert_eq!(rental_cases_import(&mut st, &bad), Err(CrudError::ConstraintViolation));
    assert!(matches!(rental_cases_show(&st, 1), Err(CrudError::NotFound)));
    let good = vec![case(1, "ABC123", 1), case(1, "ABC123", 1)];
    assert_eq!(rental_cases_import(&mut st, &good), Ok(Route::RentalCaseList));
    assert!(rental_cases_show(&st, 1).is_ok());
    assert!(rental_cases_show(&st, 2).is_ok());
    assert_eq!(rental_cases_import(&mut st, &Vec::new()), Ok(Route::RentalCaseList));
}

#[test]
fn staff_records() {
    let mut st = seeded();
    assert_eq!(new_data(&mut st, Staff { email: s("ann@rent.example"), password: s("x"), name: s("Other") }), Err(CrudError::ConstraintViolation));
    assert_eq!(new_data(&mut st, Staff { email: s("cat@rent.example"), password: s("pw2"), name: s("Cat") }), Ok(2));
    assert_eq!(update_data(&mut st, 2, Staff { email: s("ann@rent.example"), password: s("x"), name: s("Cat") }), Err(CrudError::ConstraintViolation));
    assert_eq!(update_data(&mut st, 2, Staff { email: s("cat@rent.example"), password: s("new"), name: s("Cathy") }), Ok(Route::Index));
    assert_eq!(data(&st, 2).unwrap().name, "Cathy");
    assert_eq!(update_data(&mut st, 7, Staff { email: s("z"), password: s("z"), name: s("z") }), Err(CrudError::NotFound));
    assert_eq!(delete_data(&mut st, 2), Ok(Route::Index));
    assert!(matches!(data(&st, 2), Err(CrudError::NotFound)));
}

#[test]
fn login_outcomes() {
    let st = seeded();
    let (cookies, route) = post_login(&st, &s("ann@rent.example"), &s("pw1")).ok().unwrap();
    assert_eq!(cookies.user_email, "ann@rent.example");
    assert_eq!(cookies.user_password, "pw1");
    assert_eq!(route, Route::CarList);
    let wrong = post_login(&st, &s("ann@rent.example"), &s("bad")).err().unwrap();
    assert_eq!(wrong, LoginError::WrongPassword);
    assert_eq!(wrong.message(), "Wrong password");
    let unknown = post_login(&st, &s("nobody@rent.example"), &s("pw1")).err().unwrap();
    assert_eq!(unknown, LoginError::EmailNotFound);
    assert_eq!(unknown.message(), "Email not found.");
}

#[test]
fn root_redirects_by_session() {
    let st = seeded();
    assert_eq!(index(&st, None, None), Route::Login);
    assert_eq!(index(&st, Some(&s("ann@rent.example")), None), Route::Login);
    assert_eq!(index(&st, Some(&s("ann@rent.example")), Some(&s("nope"))), Route::Login);
    assert_eq!(index(&st, Some(&s("ann@rent.example")), Some(&s("pw1"))), Route::CarList);
    assert_eq!(authenticate(&st, Some(&s("ann@rent.example")), Some(&s("pw1"))), Some(1));
    assert_eq!(authenticate(&Store::new(), Some(&s("ann@rent.example")), Some(&s("pw1"))), None);
}
