use vstd::prelude::*;
use crate::crud::{created, removed, replaced};
use crate::error::{CrudError, Route};
use crate::store::{Staff, Store, StoreView};

verus! {

/// The staff member with the given id.
pub fn data<'a>(store: &'a Store, uid: u64) -> (r: Result<&'a Staff, CrudError>)
    requires
        store.wf(),
    ensures
        r is Ok <==> store@.staff.contains_key(uid),
        r matches Ok(s) ==> *s == store@.staff[uid],
        r matches Err(e) ==> e == CrudError::NotFound,
{
    match store.staff.get(&uid) {
        Some(s) => Ok(s),
        None => Err(CrudError::NotFound),
    }
}

/// Registers a staff member under the next free id, which it returns. The
/// email address must not be registered yet.
pub fn new_data(store: &mut Store, new_staff: Staff) -> (r: Result<u64, CrudError>)
    requires
        old(store).wf(),
    ensures
        final(store).wf(),
        created(old(store)@.staff, old(store).staff.next_id, !old(store)@.email_registered(new_staff.email@), new_staff, r, final(store)@.staff),
        final(store)@ == (StoreView { staff: final(store)@.staff, ..old(store)@ }),
        final(store).next_ids() == old(store).next_ids().update(0, if r is Ok { (old(store).staff.next_id + 1) as u64 } else { old(store).staff.next_id }),
{
    if store.staff_by_email(&new_staff.email).is_some() {
        return Err(CrudError::ConstraintViolation);
    }
    let ghost e = new_staff.email@;
    let r = store.staff.insert_next(new_staff);
    proof {
        if let Ok(id) = r {
            let v = store@.staff;
            assert forall|a: u64, b: u64|
                v.contains_key(a) && v.contains_key(b) && #[trigger] v[a].email@ == #[trigger] v[b].email@
                    implies a == b by {
                if a != id && b != id {
                    assert(old(store)@.staff.contains_key(a) && old(store)@.staff.contains_key(b));
                } else if a != id {
                    assert(old(store)@.staff.contains_key(a) && old(store)@.staff[a].email@ == e);
                } else if b != id {
                    assert(old(store)@.staff.contains_key(b) && old(store)@.staff[b].email@ == e);
                }
            }
        }
    }
    r
}

/// Overwrites every column of the staff member with the given id. The email
/// address must not belong to another staff member.
pub fn update_data(store: &mut Store, uid: u64, updated_user: Staff) -> (r: Result<Route, CrudError>)
    requires
        old(store).wf(),
    ensures
        final(store).wf(),
        replaced(old(store)@.staff, uid, !old(store)@.email_taken_by_other(updated_user.email@, uid), updated_user, Route::Index, r, final(store)@.staff),
        final(store)@ == (StoreView { staff: final(store)@.staff, ..old(store)@ }),
        final(store).next_ids() == old(store).next_ids(),
{
    if store.staff.get(&uid).is_none() {
        return Err(CrudError::NotFound);
    }
    match store.staff_by_email(&updated_user.email) {
        Some(other) => {
            if other != uid {
                return Err(CrudError::ConstraintViolation);
            }
        },
        None => {},
    }
    let ghost e = updated_user.email@;
    let r = store.staff.replace(&uid, updated_user);
    proof {
        let v = store@.staff;
        assert forall|k: u64| old(store)@.staff.contains_key(k) && k != uid
            implies #[trigger] old(store)@.staff[k].email@ != e by {
            if old(store)@.email_registered(e) {
                let w = choose|w: u64| #[trigger] old(store)@.staff.contains_key(w) && old(store)@.staff[w].email@ == e;
                assert(w == uid);
            }
        }
        assert forall|a: u64, b: u64|
            v.contains_key(a) && v.contains_key(b) && #[trigger] v[a].email@ == #[trigger] v[b].email@
                implies a == b by {
            assert(old(store)@.staff.contains_key(a) && old(store)@.staff.contains_key(b));
        }
    }
    match r {
        Ok(()) => Ok(Route::Index),
        Err(e) => Err(e),
    }
}

/// Deletes the staff member with the given id, unless a rental case was
/// handled by them.
pub fn delete_data(store: &mut Store, uid: u64) -> (r: Result<Route, CrudError>)
    requires
        old(store).wf(),
    ensures
        final(store).wf(),
        removed(old(store)@.staff, uid, old(store)@.staff_in_use(uid), Route::Index, r, final(store)@.staff),
        final(store)@ == (StoreView { staff: final(store)@.staff, ..old(store)@ }),
        final(store).next_ids() == old(store).next_ids(),
{
    if store.staff.get(&uid).is_none() {
        return Err(CrudError::NotFound);
    }
    if store.has_cases_of_staff(uid) {
        return Err(CrudError::ConstraintViolation);
    }
    let r = store.staff.remove(&uid);
    proof {
        let v = store@.staff;
        assert forall|a: u64, b: u64|
            v.contains_key(a) && v.contains_key(b) && #[trigger] v[a].email@ == #[trigger] v[b].email@
                implies a == b by {
            assert(old(store)@.staff.contains_key(a) && old(store)@.staff.contains_key(b));
        }
    }
    match r {
        Ok(()) => Ok(Route::Index),
        Err(e) => Err(e),
    }
}

} // verus!
