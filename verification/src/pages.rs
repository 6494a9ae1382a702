//! The page templates the service renders.
//!
//! Rendering itself (template files on disk, an engine, HTML) is the
//! surrounding program's business; the core fixes which templates must
//! exist.  The program loads exactly the files named here and refuses to
//! start when one is missing, instead of failing on the first request.

use vstd::prelude::*;

verus! {

/// The names of the template files the service requires, in a fixed order:
/// one per page the handlers render.
pub fn templates() -> (r: Vec<String>)
    ensures
        r@.len() == 7,
        r@[0]@ == "home.tera.html"@,
        r@[1]@ == "register.tera.html"@,
        r@[2]@ == "event-list.tera.html"@,
        r@[3]@ == "event-create.tera.html"@,
        r@[4]@ == "event.tera.html"@,
        r@[5]@ == "post.tera.html"@,
        r@[6]@ == "post-create.tera.html"@,
{
    let mut r: Vec<String> = Vec::new();
    r.push(String::from_str("home.tera.html"));
    r.push(String::from_str("register.tera.html"));
    r.push(String::from_str("event-list.tera.html"));
    r.push(String::from_str("event-create.tera.html"));
    r.push(String::from_str("event.tera.html"));
    r.push(String::from_str("post.tera.html"));
    r.push(String::from_str("post-create.tera.html"));
    r
}

} // verus!
