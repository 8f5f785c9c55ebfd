//! A framework-agnostic routing metadata layer: route descriptors with an
//! attached authorization policy, a small policy expression language with a
//! total parser, and a short-circuiting middleware pipeline that evaluates
//! policies against a per-request context.

use vstd::prelude::*;

pub mod auth;
pub mod middleware;
pub mod registry;
pub mod routing;
pub mod swagger;

verus! {

/// Error returned by pipeline stages and surfaced by the adapter.
#[derive(Debug)]
pub enum Error {
    /// The request carries no identity although the route demands one.
    Unauthorized,
    /// Any other stage-specific failure, with a message.
    Other(String),
}

impl Error {
    /// A human-readable message for this error.
    pub fn message(&self) -> (s: String)
        ensures
            self is Unauthorized ==> s@ == "Unauthorized"@,
            self is Other ==> s@ == self->Other_0@,
    {
        match self {
            Error::Unauthorized => "Unauthorized".to_owned(),
            Error::Other(msg) => msg.clone(),
        }
    }
}

} // verus!
