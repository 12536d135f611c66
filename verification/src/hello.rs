//! The greeting behind the hello routes.

use vstd::prelude::*;
use vstd::string::StringExecFns;

verus! {

/// The greeting for `name`, as an HTML fragment.
pub open spec fn greeting(name: Seq<char>) -> Seq<char> {
    "Hello <strong> "@ + name + " </strong>"@
}

/// Whom to greet: the name given, or the world when none is.
pub open spec fn greeted(name: Option<&str>) -> Seq<char> {
    match name {
        Some(name) => name@,
        None => "World!"@,
    }
}

/// The greeting for the name given, or for the world when none is.
pub fn hello_html(name: Option<&str>) -> (html: String)
    ensures
        html@ == greeting(greeted(name)),
{
    let who = match name {
        Some(name) => name,
        None => "World!",
    };
    let html = "Hello <strong> ".to_owned().concat(who).concat(" </strong>");
    html
}

} // verus!
