//! Authentication and authorization core of a travel-booking backend:
//! password credentials, signed identity tokens, bearer-header admission
//! and the administrator gate, with the request rules around them.

pub mod credential;
pub mod flow;
pub mod guard;
pub mod identity;
pub mod listing;
pub mod models;
pub mod token;
pub mod validation;
