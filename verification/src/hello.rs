//! The hello routes' computation: a greeting naming where configuration came
//! from, and a coin-flip message generator (the error-handling
//! demonstration).
use vstd::prelude::*;

use crate::errors::AppError;
use vstd::string::StringExecFns;

verus! {

pub assume_specification<T>[ rand::random::<T> ]() -> (r: T)
    where
        rand::distributions::Standard: rand::distributions::Distribution<T>,
;

/// The greeting, naming the configuration's location or the placeholder when
/// none is set.
pub open spec fn hello_message_view(location: Option<Seq<char>>) -> Seq<char> {
    "\nHello world! Using configuration from "@ + (match location {
        Some(l) => l,
        None => "[nowhere]"@,
    }) + "\n\n"@
}

/// Renders the greeting for the configuration location at hand.
pub fn hello_message(location: &Option<String>) -> (r: String)
    ensures
        r@ == hello_message_view(location.deep_view()),
{
    let mut s = String::from_str("\nHello world! Using configuration from ");
    match location {
        Some(l) => s.append(l.as_str()),
        None => s.append("[nowhere]"),
    }
    s.append("\n\n");
    s
}

/// Generates the hello world message — or refuses to, on a coin flip drawn
/// from the thread's generator (nothing is promised of the draw; both
/// outcomes are stated).
pub fn generate_message() -> (r: Result<&'static str, String>)
    ensures
        r matches Ok(m) ==> m@ == "Hello, world!"@,
        r matches Err(e) ==> e@ == "no message for you"@,
{
    if rand::random::<bool>() {
        Err(String::from_str("no message for you"))
    } else {
        Ok("Hello, world!")
    }
}

/// The hello response body: the generated message, or the failure translated
/// to an internal error whose message names the failed step.
pub fn hello_json() -> (r: Result<&'static str, AppError>)
    ensures
        r matches Ok(m) ==> m@ == "Hello, world!"@,
        r matches Err(e) ==> e.status == 500 && e.message@ == "failed to generate message: "@
            + "no message for you"@,
{
    match generate_message() {
        Ok(m) => Ok(m),
        Err(cause) => {
            let mut message = String::from_str("failed to generate message: ");
            message.append(cause.as_str());
            Err(AppError { status: 500, message })
        },
    }
}

} // verus!
