use vstd::prelude::*;
use crate::error::{CrudError, Route};

verus! {

/// Registering `new` under the next free id `next`: it succeeds exactly when
/// the row is `allowed` and ids remain, and the table then gains that one row.
pub open spec fn created<R>(before: Map<u64, R>, next: u64, allowed: bool, new: R, r: Result<u64, CrudError>, after: Map<u64, R>) -> bool {
    &&& (r is Ok <==> allowed && next < u64::MAX)
    &&& (r matches Err(e) ==> e == CrudError::ConstraintViolation && after == before)
    &&& (r matches Ok(id) ==> id == next && after == before.insert(id, new))
}

/// Overwriting the whole row under `key` with `new`: a missing key is
/// `NotFound`, a row that is not `allowed` a constraint violation; otherwise
/// the row is replaced and the browser sent to `route`.
pub open spec fn replaced<K, R>(before: Map<K, R>, key: K, allowed: bool, new: R, route: Route, r: Result<Route, CrudError>, after: Map<K, R>) -> bool {
    &&& (r is Err ==> after == before)
    &&& (!before.contains_key(key) ==> r == Err::<Route, CrudError>(CrudError::NotFound))
    &&& (before.contains_key(key) && !allowed ==> r == Err::<Route, CrudError>(CrudError::ConstraintViolation))
    &&& (before.contains_key(key) && allowed ==> r == Ok::<Route, CrudError>(route) && after == before.insert(key, new))
}

/// Deleting the row under `key`: a missing key is `NotFound`, a row that
/// another row references (`in_use`) a constraint violation; otherwise the
/// row is gone and the browser sent to `route`.
pub open spec fn removed<K, R>(before: Map<K, R>, key: K, in_use: bool, route: Route, r: Result<Route, CrudError>, after: Map<K, R>) -> bool {
    &&& (r is Err ==> after == before)
    &&& (!before.contains_key(key) ==> r == Err::<Route, CrudError>(CrudError::NotFound))
    &&& (before.contains_key(key) && in_use ==> r == Err::<Route, CrudError>(CrudError::ConstraintViolation))
    &&& (before.contains_key(key) && !in_use ==> r == Ok::<Route, CrudError>(route) && after == before.remove(key))
}

} // verus!
