//! The sign-in and sign-up forms: their fields, how an input event changes
//! them, the guard against submitting twice, and what a sign-in reply
//! leads to.

use vstd::prelude::*;
use crate::json::{json_nested_str_member, read_nested_str_member};
use crate::text::str_eq;

verus! {

/// Fields of the sign-in form.
pub struct LoginData {
    pub username: String,
    pub email: String,
    pub password: String,
}

/// Fields of the sign-up form.
pub struct RegisterData {
    pub username: String,
    pub email: String,
    pub password1: String,
    pub password2: String,
}

impl LoginData {
    /// An empty form.
    pub fn new() -> (d: LoginData)
        ensures
            d.username@ == Seq::<char>::empty(),
            d.email@ == Seq::<char>::empty(),
            d.password@ == Seq::<char>::empty(),
    {
        LoginData { username: String::new(), email: String::new(), password: String::new() }
    }

    /// An input event from the field named `name` with text `value`: the
    /// field of that name takes the value; an unknown name changes nothing.
    pub fn apply_input(&mut self, name: &str, value: String)
        ensures
            final(self).username@ == (if name@ == "username"@ {
                value@
            } else {
                old(self).username@
            }),
            final(self).email@ == (if name@ == "email"@ {
                value@
            } else {
                old(self).email@
            }),
            final(self).password@ == (if name@ == "password"@ {
                value@
            } else {
                old(self).password@
            }),
    {
        proof {
            reveal_strlit("username");
            reveal_strlit("email");
            reveal_strlit("password");
            assert("username"@[0] != "password"@[0]);
            assert("username"@.len() != "email"@.len());
            assert("password"@.len() != "email"@.len());
        }
        if str_eq(name, "username") {
            self.username = value;
        } else if str_eq(name, "email") {
            self.email = value;
        } else if str_eq(name, "password") {
            self.password = value;
        }
    }
}

impl RegisterData {
    /// An empty form.
    pub fn new() -> (d: RegisterData)
        ensures
            d.username@ == Seq::<char>::empty(),
            d.email@ == Seq::<char>::empty(),
            d.password1@ == Seq::<char>::empty(),
            d.password2@ == Seq::<char>::empty(),
    {
        RegisterData {
            username: String::new(),
            email: String::new(),
            password1: String::new(),
            password2: String::new(),
        }
    }

    /// An input event from the field named `name` with text `value`: the
    /// field of that name takes the value; an unknown name changes nothing.
    pub fn apply_input(&mut self, name: &str, value: String)
        ensures
            final(self).username@ == (if name@ == "username"@ {
                value@
            } else {
                old(self).username@
            }),
            final(self).email@ == (if name@ == "email"@ {
                value@
            } else {
                old(self).email@
            }),
            final(self).password1@ == (if name@ == "password1"@ {
                value@
            } else {
                old(self).password1@
            }),
            final(self).password2@ == (if name@ == "password2"@ {
                value@
            } else {
                old(self).password2@
            }),
    {
        proof {
            reveal_strlit("username");
            reveal_strlit("email");
            reveal_strlit("password1");
            reveal_strlit("password2");
            assert("username"@.len() != "email"@.len());
            assert("username"@.len() != "password1"@.len());
            assert("username"@.len() != "password2"@.len());
            assert("email"@.len() != "password1"@.len());
            assert("email"@.len() != "password2"@.len());
            assert("password1"@[8] != "password2"@[8]);
        }
        if str_eq(name, "username") {
            self.username = value;
        } else if str_eq(name, "email") {
            self.email = value;
        } else if str_eq(name, "password1") {
            self.password1 = value;
        } else if str_eq(name, "password2") {
            self.password2 = value;
        }
    }
}

/// Whether a form submission is under way.
pub struct SubmitGuard {
    pub loading: bool,
}

impl SubmitGuard {
    /// No submission under way.
    pub fn new() -> (g: SubmitGuard)
        ensures
            !g.loading,
    {
        SubmitGuard { loading: false }
    }

    /// A submit event: starts a submission, and returns `true`, unless one
    /// is already under way, in which case nothing changes and it returns
    /// `false`.
    pub fn try_begin(&mut self) -> (started: bool)
        ensures
            started == !old(self).loading,
            final(self).loading,
    {
        if self.loading {
            false
        } else {
            self.loading = true;
            true
        }
    }

    /// The submission is over (whatever its outcome).
    pub fn finish(&mut self)
        ensures
            !final(self).loading,
    {
        self.loading = false;
    }
}

/// The key `tokens`.
pub open spec fn tokens_key() -> Seq<char> {
    seq!['t', 'o', 'k', 'e', 'n', 's']
}

/// The key `access`.
pub open spec fn access_key() -> Seq<char> {
    seq!['a', 'c', 'c', 'e', 's', 's']
}

/// The key `refresh`.
pub open spec fn refresh_key() -> Seq<char> {
    seq!['r', 'e', 'f', 'r', 'e', 's', 'h']
}

/// What a sign-in reply leads to.
pub struct LoginOutcome {
    /// Access token to store, if the reply carries one.
    pub store_access: Option<String>,
    /// Refresh token to store, if the reply carries one.
    pub store_refresh: Option<String>,
    /// Whether to go to the notes page.
    pub open_notes: bool,
}

/// `Some(s)` of a member that is present and a string, else `None`.
pub open spec fn present(m: Option<Option<Seq<char>>>) -> Option<Seq<char>> {
    match m {
        Some(Some(s)) => Some(s),
        _ => None,
    }
}

/// The view of an optional string.
pub open spec fn opt_view(o: Option<String>) -> Option<Seq<char>> {
    match o {
        Some(s) => Some(s@),
        None => None,
    }
}

/// The outcome of a sign-in reply whose body is `reply` (`None` when the
/// request failed or the body could not be read): a JSON body opens the
/// notes page and stores `tokens.access` and `tokens.refresh` when they are
/// strings; anything else changes nothing.
pub open spec fn login_outcome_spec(reply: Option<Seq<char>>, o: LoginOutcome) -> bool {
    match reply {
        None => o.store_access is None && o.store_refresh is None && !o.open_notes,
        Some(text) => match json_nested_str_member(text, tokens_key(), access_key()) {
            None => o.store_access is None && o.store_refresh is None && !o.open_notes,
            Some(access) => {
                &&& o.open_notes
                &&& opt_view(o.store_access) == access
                &&& opt_view(o.store_refresh) == present(
                    json_nested_str_member(text, tokens_key(), refresh_key()),
                )
            },
        },
    }
}

/// What the sign-in reply body `reply` leads to.
pub fn login_outcome(reply: Option<&str>) -> (o: LoginOutcome)
    ensures
        login_outcome_spec(
            match reply {
                Some(t) => Some(t@),
                None => None,
            },
            o,
        ),
{
    let nothing = LoginOutcome { store_access: None, store_refresh: None, open_notes: false };
    let text = match reply {
        Some(t) => t,
        None => return nothing,
    };
    proof {
        reveal_strlit("tokens");
        reveal_strlit("access");
        reveal_strlit("refresh");
        assert("tokens"@ =~= tokens_key());
        assert("access"@ =~= access_key());
        assert("refresh"@ =~= refresh_key());
    }
    let access = match read_nested_str_member(text, "tokens", "access") {
        Ok(a) => a,
        Err(_) => return nothing,
    };
    let refresh = match read_nested_str_member(text, "tokens", "refresh") {
        Ok(r) => r,
        Err(_) => None,
    };
    LoginOutcome { store_access: access, store_refresh: refresh, open_notes: true }
}

} // verus!
