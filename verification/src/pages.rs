//! Which page the site's root shows.

use vstd::prelude::*;

verus! {

/// The page for a user who has signed in.
pub const INDEX_PAGE: &'static str = "static/index.html";

/// The page for a user who has not signed in.
pub const LOGIN_PAGE: &'static str = "static/login.html";

/// The page the root shows: the index once an access token is kept, the
/// sign-in page before.
pub fn index_page(has_access_token: bool) -> (res: &'static str)
    ensures
        res@ == (if has_access_token { INDEX_PAGE@ } else { LOGIN_PAGE@ }),
{
    if has_access_token {
        INDEX_PAGE
    } else {
        LOGIN_PAGE
    }
}

} // verus!
