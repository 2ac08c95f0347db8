use vstd::prelude::*;

verus! {

/// Why an operation on the store did not take place.
#[derive(Debug, Clone, Copy, PartialEq, Eq, Structural)]
pub enum CrudError {
    /// No row has the given key.
    NotFound,
    /// The submitted form cannot be stored as given.
    Validation,
    /// The write would break a key or a reference between rows.
    ConstraintViolation,
}

/// Where a handler sends the browser after it has done its work.
#[derive(Debug, Clone, Copy, PartialEq, Eq, Structural)]
pub enum Route {
    Index,
    Login,
    CarList,
    ManufacturerList,
    CarModelList,
    CustomerList,
    RentalCaseList,
}

} // verus!
