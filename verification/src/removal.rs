use vstd::prelude::*;
use crate::text::{owned, same_text};

verus! {

/// The request that deletes a resource at the version the page showed.
pub struct DeleteBody {
    pub version: String,
}

/// The deletion request of a page without a confirmation box (users, pools).
pub fn delete_body(version: &str) -> (b: DeleteBody)
    ensures
        b.version@ == version@,
{
    DeleteBody { version: owned(version) }
}

/// The deletion request of the tag deletion form: refused with a message
/// until the deletion is confirmed.
pub fn tag_delete_request(confirmed: bool, version: &str) -> (r: Result<DeleteBody, String>)
    ensures
        confirmed ==> (r matches Ok(b) && b.version@ == version@),
        !confirmed ==> (r matches Err(m) && m@ == "Please confirm that you want to delete this tag."@),
{
    if !confirmed {
        return Err(owned("Please confirm that you want to delete this tag."));
    }
    Ok(delete_body(version))
}

/// Whether the account being deleted is the signed-in user's own (who is
/// then signed out).
pub fn deletes_own_account(current_user: Option<&str>, name: &str) -> (r: bool)
    ensures
        r == (current_user matches Some(u) && u@ == name@),
{
    match current_user {
        Some(u) => same_text(u, name),
        None => false,
    }
}

} // verus!
