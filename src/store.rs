use vstd::prelude::*;
use crate::price::Price;
use crate::table::Table;

verus! {

/// A staff member: the only kind of user that can sign in.
pub struct Staff {
    pub email: String,
    pub password: String,
    pub name: String,
}

pub struct Manufacturer {
    pub name: String,
    pub country: String,
}

pub struct CarModel {
    pub name: String,
    pub manufacturer_id: u64,
}

/// The columns of a car besides its plate number, which is its key.
pub struct Car {
    pub car_model_id: u64,
    pub available: bool,
    pub condition: String,
    pub price_per_day: Price,
}

pub struct Customer {
    pub name: String,
    pub email: String,
    pub phone: String,
}

pub struct RentalCase {
    pub customer_id: u64,
    pub car_plate: String,
    pub staff_id: u64,
    pub start_date: String,
    pub end_date: String,
    pub status: String,
}

/// The tables of the rental business, keyed by surrogate ids, and cars by
/// plate number.
pub struct Store {
    pub staff: Table<u64, Staff>,
    pub manufacturers: Table<u64, Manufacturer>,
    pub car_models: Table<u64, CarModel>,
    pub cars: Table<String, Car>,
    pub customers: Table<u64, Customer>,
    pub rental_cases: Table<u64, RentalCase>,
}

/// The contents of every table.
pub struct StoreView {
    pub staff: Map<u64, Staff>,
    pub manufacturers: Map<u64, Manufacturer>,
    pub car_models: Map<u64, CarModel>,
    pub cars: Map<Seq<char>, Car>,
    pub customers: Map<u64, Customer>,
    pub rental_cases: Map<u64, RentalCase>,
}

impl View for Store {
    type V = StoreView;

    open spec fn view(&self) -> StoreView {
        StoreView {
            staff: self.staff@,
            manufacturers: self.manufacturers@,
            car_models: self.car_models@,
            cars: self.cars@,
            customers: self.customers@,
            rental_cases: self.rental_cases@,
        }
    }
}

pub open spec fn models_reference_makers(models: Map<u64, CarModel>, makers: Map<u64, Manufacturer>) -> bool {
    forall|k: u64| #[trigger] models.contains_key(k) ==> makers.contains_key(models[k].manufacturer_id)
}

pub open spec fn cars_reference_models(cars: Map<Seq<char>, Car>, models: Map<u64, CarModel>) -> bool {
    forall|p: Seq<char>| #[trigger] cars.contains_key(p) ==> models.contains_key(cars[p].car_model_id)
}

pub open spec fn cases_reference_customers(cases: Map<u64, RentalCase>, customers: Map<u64, Customer>) -> bool {
    forall|k: u64| #[trigger] cases.contains_key(k) ==> customers.contains_key(cases[k].customer_id)
}

pub open spec fn cases_reference_cars(cases: Map<u64, RentalCase>, cars: Map<Seq<char>, Car>) -> bool {
    forall|k: u64| #[trigger] cases.contains_key(k) ==> cars.contains_key(cases[k].car_plate@)
}

pub open spec fn cases_reference_staff(cases: Map<u64, RentalCase>, staff: Map<u64, Staff>) -> bool {
    forall|k: u64| #[trigger] cases.contains_key(k) ==> staff.contains_key(cases[k].staff_id)
}

pub open spec fn emails_unique(staff: Map<u64, Staff>) -> bool {
    forall|a: u64, b: u64|
        staff.contains_key(a) && staff.contains_key(b) && #[trigger] staff[a].email@ == #[trigger] staff[b].email@
            ==> a == b
}

impl StoreView {
    /// Every foreign key names an existing row.
    pub open spec fn references_valid(self) -> bool {
        &&& models_reference_makers(self.car_models, self.manufacturers)
        &&& cars_reference_models(self.cars, self.car_models)
        &&& cases_reference_customers(self.rental_cases, self.customers)
        &&& cases_reference_cars(self.rental_cases, self.cars)
        &&& cases_reference_staff(self.rental_cases, self.staff)
    }

    pub open spec fn manufacturer_in_use(self, id: u64) -> bool {
        exists|k: u64| #[trigger] self.car_models.contains_key(k) && self.car_models[k].manufacturer_id == id
    }

    pub open spec fn car_model_in_use(self, id: u64) -> bool {
        exists|p: Seq<char>| #[trigger] self.cars.contains_key(p) && self.cars[p].car_model_id == id
    }

    pub open spec fn car_in_use(self, plate: Seq<char>) -> bool {
        exists|k: u64| #[trigger] self.rental_cases.contains_key(k) && self.rental_cases[k].car_plate@ == plate
    }

    pub open spec fn customer_in_use(self, id: u64) -> bool {
        exists|k: u64| #[trigger] self.rental_cases.contains_key(k) && self.rental_cases[k].customer_id == id
    }

    pub open spec fn staff_in_use(self, id: u64) -> bool {
        exists|k: u64| #[trigger] self.rental_cases.contains_key(k) && self.rental_cases[k].staff_id == id
    }

    /// A staff member other than `uid` is registered under the email.
    pub open spec fn email_taken_by_other(self, email: Seq<char>, uid: u64) -> bool {
        exists|k: u64| #[trigger] self.staff.contains_key(k) && k != uid && self.staff[k].email@ == email
    }

    /// Some staff member is registered under the email.
    pub open spec fn email_registered(self, email: Seq<char>) -> bool {
        exists|k: u64| #[trigger] self.staff.contains_key(k) && self.staff[k].email@ == email
    }
}

impl Store {
    pub open spec fn wf(&self) -> bool {
        &&& self.staff.wf() && self.staff.ids_below_next()
        &&& self.manufacturers.wf() && self.manufacturers.ids_below_next()
        &&& self.car_models.wf() && self.car_models.ids_below_next()
        &&& self.cars.wf()
        &&& self.customers.wf() && self.customers.ids_below_next()
        &&& self.rental_cases.wf() && self.rental_cases.ids_below_next()
        &&& self@.references_valid()
        &&& emails_unique(self@.staff)
    }

    /// The next free id of each table with surrogate ids: staff,
    /// manufacturers, car models, customers and rental cases.
    pub open spec fn next_ids(&self) -> Seq<u64> {
        seq![
            self.staff.next_id,
            self.manufacturers.next_id,
            self.car_models.next_id,
            self.customers.next_id,
            self.rental_cases.next_id,
        ]
    }

    /// An empty store; the first row of each table gets id 1.
    pub fn new() -> (s: Store)
        ensures
            s.wf(),
            s@.staff.is_empty() && s@.manufacturers.is_empty() && s@.car_models.is_empty(),
            s@.cars.is_empty() && s@.customers.is_empty() && s@.rental_cases.is_empty(),
            s.staff.next_id == 1 && s.manufacturers.next_id == 1 && s.car_models.next_id == 1,
            s.customers.next_id == 1 && s.rental_cases.next_id == 1,
    {
        Store {
            staff: Table::new(),
            manufacturers: Table::new(),
            car_models: Table::new(),
            cars: Table::new(),
            customers: Table::new(),
            rental_cases: Table::new(),
        }
    }

    /// Whether some car model is made by the manufacturer.
    pub fn has_models_of(&self, id: u64) -> (r: bool)
        requires
            self.car_models.wf(),
        ensures
            r == self@.manufacturer_in_use(id),
    {
        let t = &self.car_models;
        let mut i: usize = 0;
        while i < t.entries.len()
            invariant
                t == &self.car_models,
                t.wf(),
                i <= t.entries@.len(),
                forall|j: int| 0 <= j < i ==> #[trigger] t.entries@[j].row.manufacturer_id != id,
            decreases t.entries@.len() - i,
        {
            if t.entries[i].row.manufacturer_id == id {
                proof {
                    let k = t.entries@[i as int].key@;
                    assert(t@.contains_key(k) && t@[k] == t.entries@[i as int].row);
                    assert(self@.car_models.contains_key(k) && self@.car_models[k].manufacturer_id == id);
                }
                return true;
            }
            i = i + 1;
        }
        assert forall|k: u64| #[trigger] t@.contains_key(k) implies t@[k].manufacturer_id != id by {
            let j = choose|j: int| 0 <= j < t.entries@.len() && #[trigger] t.entries@[j].key@ == k;
            assert(t.entries@[j].row.manufacturer_id != id);
        }
        false
    }

    /// Whether some car is of the model.
    pub fn has_cars_of(&self, id: u64) -> (r: bool)
        requires
            self.cars.wf(),
        ensures
            r == self@.car_model_in_use(id),
    {
        let t = &self.cars;
        let mut i: usize = 0;
        while i < t.entries.len()
            invariant
                t == &self.cars,
                t.wf(),
                i <= t.entries@.len(),
                forall|j: int| 0 <= j < i ==> #[trigger] t.entries@[j].row.car_model_id != id,
            decreases t.entries@.len() - i,
        {
            if t.entries[i].row.car_model_id == id {
                proof {
                    let k = t.entries@[i as int].key@;
                    assert(t@.contains_key(k) && t@[k] == t.entries@[i as int].row);
                    assert(self@.cars.contains_key(k) && self@.cars[k].car_model_id == id);
                }
                return true;
            }
            i = i + 1;
        }
        assert forall|p: Seq<char>| #[trigger] t@.contains_key(p) implies t@[p].car_model_id != id by {
            let j = choose|j: int| 0 <= j < t.entries@.len() && #[trigger] t.entries@[j].key@ == p;
            assert(t.entries@[j].row.car_model_id != id);
        }
        false
    }

    /// Whether some rental case is of the car.
    pub fn has_cases_of_car(&self, plate: &String) -> (r: bool)
        requires
            self.rental_cases.wf(),
        ensures
            r == self@.car_in_use(plate@),
    {
        let t = &self.rental_cases;
        let mut i: usize = 0;
        while i < t.entries.len()
            invariant
                t == &self.rental_cases,
                t.wf(),
                i <= t.entries@.len(),
                forall|j: int| 0 <= j < i ==> #[trigger] t.entries@[j].row.car_plate@ != plate@,
            decreases t.entries@.len() - i,
        {
            if t.entries[i].row.car_plate == *plate {
                proof {
                    let k = t.entries@[i as int].key@;
                    assert(t@.contains_key(k) && t@[k] == t.entries@[i as int].row);
                    assert(self@.rental_cases.contains_key(k) && self@.rental_cases[k].car_plate@ == plate@);
                }
                return true;
            }
            i = i + 1;
        }
        assert forall|k: u64| #[trigger] t@.contains_key(k) implies t@[k].car_plate@ != plate@ by {
            let j = choose|j: int| 0 <= j < t.entries@.len() && #[trigger] t.entries@[j].key@ == k;
            assert(t.entries@[j].row.car_plate@ != plate@);
        }
        false
    }

    /// Whether some rental case is of the customer.
    pub fn has_cases_of_customer(&self, id: u64) -> (r: bool)
        requires
            self.rental_cases.wf(),
        ensures
            r == self@.customer_in_use(id),
    {
        let t = &self.rental_cases;
        let mut i: usize = 0;
        while i < t.entries.len()
            invariant
                t == &self.rental_cases,
                t.wf(),
                i <= t.entries@.len(),
                forall|j: int| 0 <= j < i ==> #[trigger] t.entries@[j].row.customer_id != id,
            decreases t.entries@.len() - i,
        {
            if t.entries[i].row.customer_id == id {
                proof {
                    let k = t.entries@[i as int].key@;
                    assert(t@.contains_key(k) && t@[k] == t.entries@[i as int].row);
                    assert(self@.rental_cases.contains_key(k) && self@.rental_cases[k].customer_id == id);
                }
                return true;
            }
            i = i + 1;
        }
        assert forall|k: u64| #[trigger] t@.contains_key(k) implies t@[k].customer_id != id by {
            let j = choose|j: int| 0 <= j < t.entries@.len() && #[trigger] t.entries@[j].key@ == k;
            assert(t.entries@[j].row.customer_id != id);
        }
        false
    }

    /// Whether some rental case was handled by the staff member.
    pub fn has_cases_of_staff(&self, id: u64) -> (r: bool)
        requires
            self.rental_cases.wf(),
        ensures
            r == self@.staff_in_use(id),
    {
        let t = &self.rental_cases;
        let mut i: usize = 0;
        while i < t.entries.len()
            invariant
                t == &self.rental_cases,
                t.wf(),
                i <= t.entries@.len(),
                forall|j: int| 0 <= j < i ==> #[trigger] t.entries@[j].row.staff_id != id,
            decreases t.entries@.len() - i,
        {
            if t.entries[i].row.staff_id == id {
                proof {
                    let k = t.entries@[i as int].key@;
                    assert(t@.contains_key(k) && t@[k] == t.entries@[i as int].row);
                    assert(self@.rental_cases.contains_key(k) && self@.rental_cases[k].staff_id == id);
                }
                return true;
            }
            i = i + 1;
        }
        assert forall|k: u64| #[trigger] t@.contains_key(k) implies t@[k].staff_id != id by {
            let j = choose|j: int| 0 <= j < t.entries@.len() && #[trigger] t.entries@[j].key@ == k;
            assert(t.entries@[j].row.staff_id != id);
        }
        false
    }

    /// The id of the staff member registered under the email.
    pub fn staff_by_email(&self, email: &String) -> (r: Option<u64>)
        requires
            self.staff.wf(),
        ensures
            r is None <==> !self@.email_registered(email@),
            r matches Some(id) ==> self@.staff.contains_key(id) && self@.staff[id].email@ == email@,
    {
        let t = &self.staff;
        let mut i: usize = 0;
        while i < t.entries.len()
            invariant
                t == &self.staff,
                t.wf(),
                i <= t.entries@.len(),
                forall|j: int| 0 <= j < i ==> #[trigger] t.entries@[j].row.email@ != email@,
            decreases t.entries@.len() - i,
        {
            if t.entries[i].row.email == *email {
                proof {
                    let k = t.entries@[i as int].key@;
                    assert(t@.contains_key(k) && t@[k] == t.entries@[i as int].row);
                    assert(self@.staff.contains_key(k) && self@.staff[k].email@ == email@);
                }
                return Some(t.entries[i].key);
            }
            i = i + 1;
        }
        assert forall|k: u64| #[trigger] t@.contains_key(k) implies t@[k].email@ != email@ by {
            let j = choose|j: int| 0 <= j < t.entries@.len() && #[trigger] t.entries@[j].key@ == k;
            assert(t.entries@[j].row.email@ != email@);
        }
        None
    }
}

} // verus!
