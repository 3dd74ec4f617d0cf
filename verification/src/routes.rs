//! The client-side routing table: which screen each URL path leads to.

use vstd::prelude::*;
use vstd::string::StringExecFns;

verus! {

/// The four screens the router serves.
#[derive(Clone, Copy, Debug, PartialEq, Eq, Structural)]
pub enum Route {
    Home,
    Imprint,
    Login,
    NotFound,
}

/// The routing table: the root path leads home, two fixed paths lead to
/// their screens, and every other path falls through to the not-found
/// screen.
pub open spec fn route_of(path: Seq<char>) -> Route {
    if path == "/"@ {
        Route::Home
    } else if path == "/imprint"@ {
        Route::Imprint
    } else if path == "/login"@ {
        Route::Login
    } else {
        Route::NotFound
    }
}

impl Route {
    /// Looks a URL path up in the routing table.
    pub fn recognize(path: &str) -> (r: Route)
        ensures
            r == route_of(path@),
    {
        let p = String::from_str(path);
        if p == String::from_str("/") {
            Route::Home
        } else if p == String::from_str("/imprint") {
            Route::Imprint
        } else if p == String::from_str("/login") {
            Route::Login
        } else {
            Route::NotFound
        }
    }
}

} // verus!
