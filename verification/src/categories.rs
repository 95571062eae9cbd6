use vstd::prelude::*;
use crate::forms::{blank, is_blank};
use crate::text::{opt_text, owned};

verus! {

/// The request that creates a pool category.
pub struct CreatePoolCategoryBody {
    pub name: String,
    pub color: String,
}

/// The request that changes a pool category.
pub struct UpdatePoolCategoryBody {
    pub version: String,
    pub name: Option<String>,
    pub color: Option<String>,
}

/// The color a category is shown with when it has none.
pub open spec fn fallback_color() -> Seq<char> {
    "#aaaaaa"@
}

/// The color shown for a category: its own, else the fallback.
pub fn category_color(color: &Option<String>) -> (r: String)
    ensures
        r@ == (match opt_text(*color) {
            Some(c) => c,
            None => fallback_color(),
        }),
{
    match color {
        Some(c) => owned(c.as_str()),
        None => owned("#aaaaaa"),
    }
}

/// The request of the "add category" form: none while the name is blank
/// (the form then sends nothing); the name is sent as typed.
pub fn category_create_body(name: &str, color: &str) -> (r: Option<CreatePoolCategoryBody>)
    ensures
        blank(name@) ==> r is None,
        !blank(name@) ==> (r matches Some(b) && b.name@ == name@ && b.color@ == color@),
{
    if is_blank(name) {
        None
    } else {
        Some(CreatePoolCategoryBody { name: owned(name), color: owned(color) })
    }
}

/// The request that saves a category's color: the name is left as it is.
pub fn category_update_body(version: &str, color: &str) -> (b: UpdatePoolCategoryBody)
    ensures
        b.version@ == version@,
        b.name is None,
        opt_text(b.color) == Some(color@),
{
    UpdatePoolCategoryBody { version: owned(version), name: None, color: Some(owned(color)) }
}

/// Whether a category may be deleted or made the default: only one that is
/// not the default already (unknown counts as not the default).
pub fn category_removable(is_default: Option<bool>) -> (r: bool)
    ensures
        r == !(is_default == Some(true)),
{
    match is_default {
        Some(d) => !d,
        None => true,
    }
}

} // verus!
