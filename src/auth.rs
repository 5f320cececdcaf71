//! Lifting a runtime value into a type: a session becomes `Auth::Admin` or
//! `Auth::User` once, and later code matches on the variant.
use vstd::prelude::*;

verus! {

/// User session, identified by `user_id`.
pub struct Session {
    pub user_id: u32,
}

/// Type witness for the `Session::user_id` value.
pub enum Auth<T> {
    /// `Auth::Admin` <=> (`Session::user_id` == 0)
    Admin(T),
    /// `Auth::User` <=> (`Session::user_id` != 0)
    User(T),
}

impl<T> Auth<T> {
    /// The value carried by either variant.
    pub open spec fn payload(self) -> T {
        match self {
            Auth::Admin(t) => t,
            Auth::User(t) => t,
        }
    }
}

/// The predicate that decides the variant: the administrator has user id 0.
pub open spec fn is_admin_id(user_id: u32) -> bool {
    user_id == 0
}

/// The page served to an administrator.
pub open spec fn admin_page() -> Seq<char> {
    "<html>admin</html>"@
}

/// The error returned to anyone else.
pub open spec fn not_found() -> Seq<char> {
    "404"@
}

/// What `get_admin_page` answers for a given variant.
pub open spec fn admin_page_for<T>(auth: Auth<T>) -> Result<Seq<char>, Seq<char>> {
    match auth {
        Auth::Admin(_) => Ok(admin_page()),
        Auth::User(_) => Err(not_found()),
    }
}

/// Views a `Result` of strings as a `Result` of character sequences.
pub open spec fn view_result(r: Result<String, String>) -> Result<Seq<char>, Seq<char>> {
    match r {
        Ok(s) => Ok(s@),
        Err(e) => Err(e@),
    }
}

/// Route handler: takes the current session, authenticates it, and asks for
/// the admin page.
pub fn handler() -> (r: Result<String, String>)
    ensures
        view_result(r) == Ok::<Seq<char>, Seq<char>>(admin_page()),
{
    let session = Session { user_id: 0 };
    let auth = authenticate(session);
    get_admin_page(&auth)
}

/// Authenticate a user `Session`: the returned `Auth` is a type witness for
/// `Session::user_id`, and carries the session unchanged.
pub fn authenticate(session: Session) -> (r: Auth<Session>)
    ensures
        r is Admin <==> is_admin_id(session.user_id),
        r is User <==> !is_admin_id(session.user_id),
        r.payload() == session,
{
    if session.user_id == 0 {
        Auth::Admin(session)
    } else {
        Auth::User(session)
    }
}

/// Return the admin page for `Auth::Admin`, or 404.
pub fn get_admin_page(auth: &Auth<Session>) -> (r: Result<String, String>)
    ensures
        view_result(r) == admin_page_for(*auth),
{
    if let Auth::Admin(_) = auth {
        Ok("<html>admin</html>".to_string())
    } else {
        Err("404".to_string())
    }
}

} // verus!
