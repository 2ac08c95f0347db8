use vstd::prelude::*;
use crate::error::Route;
use crate::store::{Store, StoreView};

verus! {

/// Why a sign-in was refused. The two cases are told apart to the user.
#[derive(Debug, Clone, Copy, PartialEq, Eq, Structural)]
pub enum LoginError {
    EmailNotFound,
    WrongPassword,
}

impl LoginError {
    /// The message shown to the user.
    pub fn message(&self) -> (r: &'static str)
        ensures
            *self == LoginError::EmailNotFound ==> r@ == "Email not found."@,
            *self == LoginError::WrongPassword ==> r@ == "Wrong password"@,
    {
        match self {
            LoginError::EmailNotFound => "Email not found.",
            LoginError::WrongPassword => "Wrong password",
        }
    }
}

/// The two cookies that carry a signed-in identity.
pub struct SessionCookies {
    pub user_email: String,
    pub user_password: String,
}

impl StoreView {
    /// The staff member registered under the email has this password.
    pub open spec fn credentials_match(self, email: Seq<char>, password: Seq<char>) -> bool {
        exists|k: u64| #[trigger] self.staff.contains_key(k) && self.staff[k].email@ == email
            && self.staff[k].password@ == password
    }
}

/// The staff member that the session cookies identify, if any: both cookies
/// must be present, and the password must be the one stored for the email.
pub fn authenticate(store: &Store, user_email: Option<&String>, user_password: Option<&String>) -> (r: Option<u64>)
    requires
        store.wf(),
    ensures
        r is Some <==> user_email is Some && user_password is Some
            && store@.credentials_match(user_email->Some_0@, user_password->Some_0@),
        r matches Some(id) ==> store@.staff.contains_key(id)
            && store@.staff[id].email@ == user_email->Some_0@
            && store@.staff[id].password@ == user_password->Some_0@,
{
    match (user_email, user_password) {
        (Some(email), Some(password)) => match store.staff_by_email(email) {
            Some(id) => {
                let staff = store.staff.get(&id).unwrap();
                if staff.password == *password {
                    Some(id)
                } else {
                    proof {
                        assert forall|k: u64| #[trigger] store@.staff.contains_key(k) && store@.staff[k].email@ == email@
                            implies store@.staff[k].password@ != password@ by {
                            assert(k == id);
                        }
                    }
                    None
                }
            },
            None => None,
        },
        _ => None,
    }
}

/// Checks a sign-in form. On success the two session cookies are to be set
/// and the browser sent to the car list.
pub fn post_login(store: &Store, email: &String, password: &String) -> (r: Result<(SessionCookies, Route), LoginError>)
    requires
        store.wf(),
    ensures
        !store@.email_registered(email@) ==> r == Err::<(SessionCookies, Route), LoginError>(LoginError::EmailNotFound),
        store@.email_registered(email@) && !store@.credentials_match(email@, password@)
            ==> r == Err::<(SessionCookies, Route), LoginError>(LoginError::WrongPassword),
        store@.credentials_match(email@, password@) ==> (r matches Ok((cookies, route))
            && cookies.user_email@ == email@ && cookies.user_password@ == password@ && route == Route::CarList),
{
    match authenticate(store, Some(email), Some(password)) {
        Some(_) => Ok((SessionCookies { user_email: email.clone(), user_password: password.clone() }, Route::CarList)),
        None => {
            if store.staff_by_email(email).is_some() {
                Err(LoginError::WrongPassword)
            } else {
                Err(LoginError::EmailNotFound)
            }
        },
    }
}

/// Where the root page sends the browser: to the car list when the session
/// cookies identify a staff member, else to the sign-in page.
pub fn index(store: &Store, user_email: Option<&String>, user_password: Option<&String>) -> (r: Route)
    requires
        store.wf(),
    ensures
        r == (if user_email is Some && user_password is Some
            && store@.credentials_match(user_email->Some_0@, user_password->Some_0@) {
            Route::CarList
        } else {
            Route::Login
        }),
{
    match authenticate(store, user_email, user_password) {
        Some(_) => Route::CarList,
        None => Route::Login,
    }
}

} // verus!
