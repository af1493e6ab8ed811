//! The client-side routes: which page a location path shows, and the path
//! of each page. A path is read without one trailing `/` and without one
//! leading `/`, and must then equal a route's path exactly; any other path
//! shows the not-found page.

use vstd::prelude::*;
use vstd::string::StringExecFns;
use crate::text::chars_of;

verus! {

/// The pages of the client.
#[derive(PartialEq, Eq, Structural, Clone, Copy, Debug)]
pub enum Route {
    Home,
    Login,
    Register,
    Notes,
    NotFound,
}

/// `p` without one trailing `/`.
pub open spec fn strip_trailing_slash(p: Seq<char>) -> Seq<char> {
    if p.len() > 0 && p.last() == '/' {
        p.drop_last()
    } else {
        p
    }
}

/// `p` without one leading `/`.
pub open spec fn strip_leading_slash(p: Seq<char>) -> Seq<char> {
    if p.len() > 0 && p[0] == '/' {
        p.skip(1)
    } else {
        p
    }
}

/// The path of a route, as it is declared.
pub open spec fn route_path(r: Route) -> Seq<char> {
    match r {
        Route::Home => seq!['/'],
        Route::Login => seq!['/', 'l', 'o', 'g', 'i', 'n'],
        Route::Register => seq!['/', 'r', 'e', 'g', 'i', 's', 't', 'e', 'r'],
        Route::Notes => seq!['/', 'n', 'o', 't', 'e', 's'],
        Route::NotFound => seq!['/', '4', '0', '4'],
    }
}

/// The route that a location path shows.
pub open spec fn route_of(p: Seq<char>) -> Route {
    let q = strip_leading_slash(strip_trailing_slash(p));
    if q == route_path(Route::Home).skip(1) {
        Route::Home
    } else if q == route_path(Route::Login).skip(1) {
        Route::Login
    } else if q == route_path(Route::Register).skip(1) {
        Route::Register
    } else if q == route_path(Route::Notes).skip(1) {
        Route::Notes
    } else {
        Route::NotFound
    }
}

/// Whether `v[lo..hi]` holds exactly the characters of `w`.
fn slice_is(v: &Vec<char>, lo: usize, hi: usize, w: &str) -> (b: bool)
    requires
        lo <= hi <= v@.len(),
    ensures
        b == (v@.subrange(lo as int, hi as int) == w@),
{
    let ws = chars_of(w);
    if hi - lo != ws.len() {
        return false;
    }
    let mut i: usize = 0;
    while i < ws.len()
        invariant
            ws@ == w@,
            lo <= hi <= v@.len(),
            hi - lo == ws@.len(),
            i <= ws@.len(),
            forall|k: int| 0 <= k < i ==> v@[lo + k] == ws@[k],
        decreases ws@.len() - i,
    {
        if v[lo + i] != ws[i] {
            assert(v@.subrange(lo as int, hi as int)[i as int] != w@[i as int]);
            return false;
        }
        i = i + 1;
    }
    assert(v@.subrange(lo as int, hi as int) =~= w@);
    true
}

impl Route {
    /// The route that the location path `path` shows.
    pub fn recognize(path: &str) -> (r: Route)
        ensures
            r == route_of(path@),
    {
        let v = chars_of(path);
        let mut hi = v.len();
        if hi > 0 && v[hi - 1] == '/' {
            hi = hi - 1;
        }
        let mut lo: usize = 0;
        if hi > 0 && v[0] == '/' {
            lo = 1;
        }
        let ghost q = strip_leading_slash(strip_trailing_slash(path@));
        assert(v@.subrange(lo as int, hi as int) =~= q);
        proof {
            reveal_strlit("");
            reveal_strlit("login");
            reveal_strlit("register");
            reveal_strlit("notes");
            assert(route_path(Route::Home).skip(1) =~= ""@);
            assert(route_path(Route::Login).skip(1) =~= "login"@);
            assert(route_path(Route::Register).skip(1) =~= "register"@);
            assert(route_path(Route::Notes).skip(1) =~= "notes"@);
        }
        if slice_is(&v, lo, hi, "") {
            Route::Home
        } else if slice_is(&v, lo, hi, "login") {
            Route::Login
        } else if slice_is(&v, lo, hi, "register") {
            Route::Register
        } else if slice_is(&v, lo, hi, "notes") {
            Route::Notes
        } else {
            Route::NotFound
        }
    }

    /// The path of this route.
    pub fn to_path(&self) -> (p: String)
        ensures
            p@ == route_path(*self),
    {
        proof {
            reveal_strlit("/");
            reveal_strlit("/login");
            reveal_strlit("/register");
            reveal_strlit("/notes");
            reveal_strlit("/404");
        }
        match self {
            Route::Home => String::from_str("/"),
            Route::Login => String::from_str("/login"),
            Route::Register => String::from_str("/register"),
            Route::Notes => String::from_str("/notes"),
            Route::NotFound => String::from_str("/404"),
        }
    }
}

/// Following the path of a route leads back to that route.
pub proof fn law_route_round_trip(r: Route)
    ensures
        route_of(route_path(r)) == r,
{
    let home = route_path(Route::Home).skip(1);
    let login = route_path(Route::Login).skip(1);
    let register = route_path(Route::Register).skip(1);
    let notes = route_path(Route::Notes).skip(1);
    assert(home.len() == 0);
    assert(login.len() == 5 && login[0] == 'l');
    assert(register.len() == 8);
    assert(notes.len() == 5 && notes[0] == 'n');
    let q = strip_leading_slash(strip_trailing_slash(route_path(r)));
    match r {
        Route::Home => {
            assert(q =~= home);
        },
        Route::Login => {
            assert(q =~= login);
        },
        Route::Register => {
            assert(q =~= register);
        },
        Route::Notes => {
            assert(q =~= notes);
            assert(q[0] != login[0]);
        },
        Route::NotFound => {
            assert(q.len() == 3);
        },
    }
}

/// One trailing `/` does not change the route of a path that does not
/// already end with `/`.
pub proof fn law_trailing_slash_ignored(p: Seq<char>)
    requires
        p.len() == 0 || p.last() != '/',
    ensures
        route_of(p.push('/')) == route_of(p),
{
    assert(strip_trailing_slash(p.push('/')) =~= p);
}

} // verus!
