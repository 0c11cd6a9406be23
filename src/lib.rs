//! A native command bridge: a registry that maps command names to backend
//! handlers, and a dispatcher that turns an invocation envelope into exactly
//! one response carrying the envelope's correlation token.

use vstd::prelude::*;

mod dispatch;
mod error;
mod handler;
mod registry;
mod value;

pub use dispatch::{dispatch, dispatch_request, parse_request, Request, Response};
pub use error::{ErrorKind, Failure};
pub use handler::{first_mismatch, Handler, Param, ParamType};
pub use registry::Registry;
pub use value::{Field, Val, Value};

verus! {

/// Builds the greeting `Hello, <name>!`.
pub fn greet(name: &str) -> (r: String)
    ensures
        r@ == handler::greeting(name@),
{
    let mut s = String::from_str("Hello, ");
    s.append(name);
    s.append("!");
    proof {
        reveal_strlit("Hello, ");
        reveal_strlit("!");
    }
    s
}

} // verus!
