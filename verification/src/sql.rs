//! The pieces that the statements of queries and filters share.

use crate::text::{push_quoted, quoted};
use vstd::prelude::*;
use vstd::string::StringExecFns;

verus! {

/// A piece of text that stands for "any" when it is empty.
pub open spec fn given(text: String) -> Option<String> {
    if text@.len() == 0 {
        None
    } else {
        Some(text)
    }
}

/// The test on user and resource, written out: `TRUE` where neither is
/// given, else one equality for each that is given.
pub open spec fn owner_condition(user_id: Seq<char>, resource_id: Seq<char>) -> Seq<char> {
    if user_id.len() == 0 && resource_id.len() == 0 {
        "TRUE"@
    } else if user_id.len() == 0 {
        "resource_id = "@ + quoted(resource_id)
    } else if resource_id.len() == 0 {
        "user_id = "@ + quoted(user_id)
    } else {
        "user_id = "@ + quoted(user_id) + " AND resource_id = "@ + quoted(resource_id)
    }
}

/// The word for a direction.
pub open spec fn direction(desc: bool) -> Seq<char> {
    if desc {
        "DESC"@
    } else {
        "ASC"@
    }
}

/// Appends the test on user and resource to `out`.
pub fn push_owner_condition(out: &mut String, user_id: &str, resource_id: &str)
    ensures
        final(out)@ == old(out)@ + owner_condition(user_id@, resource_id@),
{
    let any_user = user_id.is_empty();
    let any_resource = resource_id.is_empty();
    if any_user && any_resource {
        out.append("TRUE");
    } else if any_user {
        out.append("resource_id = ");
        push_quoted(out, resource_id);
    } else if any_resource {
        out.append("user_id = ");
        push_quoted(out, user_id);
    } else {
        out.append("user_id = ");
        push_quoted(out, user_id);
        out.append(" AND resource_id = ");
        push_quoted(out, resource_id);
    }
}

/// The text, unless it is empty.
pub fn given_text(text: &String) -> (value: Option<String>)
    ensures
        value == given(*text),
{
    if text.as_str().is_empty() {
        None
    } else {
        Some(text.clone())
    }
}

} // verus!
