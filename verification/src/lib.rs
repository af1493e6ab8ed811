//! Verified core of the notes web client: routing, form state, session
//! (JWT) handling, the notes editor and the decisions of its network flows.

pub mod text;
pub mod codec;
pub mod json;
pub mod token;
pub mod api;
pub mod auth;
pub mod forms;
pub mod notes;
pub mod routes;
