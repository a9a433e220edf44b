//! The greeting endpoint's service.

use vstd::prelude::*;

verus! {

/// Declares `actix_web::Error`, the error type of handler results.
#[verifier::external_type_specification]
#[verifier::external_body]
pub struct ExActixError(actix_web::Error);

/// A greeting.
#[derive(Debug, PartialEq, Eq)]
pub struct HelloWorld {
    pub name: String,
}

/// The greeting service.
pub struct HelloWorldService;

impl HelloWorldService {
    /// Always succeeds with the greeting "Hello world!".
    pub fn hello_world() -> (res: Result<HelloWorld, actix_web::Error>)
        ensures
            res matches Ok(h) && h.name@ == "Hello world!"@,
    {
        Ok(HelloWorld { name: String::from_str("Hello world!") })
    }
}

} // verus!
