//! The backend's endpoints and the `Authorization` header.

use vstd::prelude::*;
use vstd::string::StringExecFns;
use crate::text::{decimal, lemma_decimal_round_trip, push_decimal};

verus! {

/// `Bearer <token>`.
pub open spec fn bearer(token: Seq<char>) -> Seq<char> {
    seq!['B', 'e', 'a', 'r', 'e', 'r', ' '] + token
}

/// The value of the `Authorization` header that carries `token`.
pub fn bearer_authorization(token: &str) -> (h: String)
    ensures
        h@ == bearer(token@),
{
    proof {
        reveal_strlit("Bearer ");
    }
    let mut h = String::from_str("Bearer ");
    h.append(token);
    h
}

/// Login endpoint.
pub fn login_url() -> (u: &'static str)
    ensures
        u@ == "http://127.0.0.1:8000/api/login/"@,
{
    "http://127.0.0.1:8000/api/login/"
}

/// Registration endpoint.
pub fn register_url() -> (u: &'static str)
    ensures
        u@ == "http://127.0.0.1:8000/api/register/"@,
{
    "http://127.0.0.1:8000/api/register/"
}

/// Token refresh endpoint.
pub fn refresh_url() -> (u: &'static str)
    ensures
        u@ == "http://127.0.0.1:8000/api/refresh/"@,
{
    "http://127.0.0.1:8000/api/refresh/"
}

/// Endpoint that describes the signed-in user.
pub fn user_url() -> (u: &'static str)
    ensures
        u@ == "http://127.0.0.1:8000/api/user/"@,
{
    "http://127.0.0.1:8000/api/user/"
}

/// Endpoint that lists the notes (GET) and creates one (POST).
pub fn notes_url() -> (u: &'static str)
    ensures
        u@ == "http://localhost:8000/api/notes/"@,
{
    "http://localhost:8000/api/notes/"
}

/// `http://localhost:8000/api/update/<id>/`.
pub open spec fn update_url_spec(id: nat) -> Seq<char> {
    "http://localhost:8000/api/update/"@ + decimal(id) + seq!['/']
}

/// Endpoint that updates the note with identifier `id` (PUT).
pub fn update_url(id: usize) -> (u: String)
    ensures
        u@ == update_url_spec(id as nat),
{
    proof {
        reveal_strlit("/");
    }
    let mut u = String::from_str("http://localhost:8000/api/update/");
    push_decimal(&mut u, id);
    u.append("/");
    u
}

/// Distinct notes are saved to distinct endpoints: the update endpoint
/// determines the note's identifier.
pub proof fn law_update_url_injective(a: nat, b: nat)
    requires
        update_url_spec(a) == update_url_spec(b),
    ensures
        a == b,
{
    let prefix = "http://localhost:8000/api/update/"@;
    let ua = update_url_spec(a);
    let ub = update_url_spec(b);
    assert(ua.len() == prefix.len() + decimal(a).len() + 1);
    assert(ub.len() == prefix.len() + decimal(b).len() + 1);
    assert(ua.len() == ub.len());
    assert(ua.subrange(prefix.len() as int, ua.len() - 1) =~= decimal(a));
    assert(ub.subrange(prefix.len() as int, ub.len() - 1) =~= decimal(b));
    lemma_decimal_round_trip(a);
    lemma_decimal_round_trip(b);
}

} // verus!
