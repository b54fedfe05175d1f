use vstd::prelude::*;
use crate::text::str_eq;

verus! {

/// The whitelist of sort keys for one inventory's contents: the held
/// quantity sorts on its own field, and every other key resolves as it
/// does for the item catalogue, falling back to `name`.
pub open spec fn spec_map_sort_field(field: Seq<char>) -> Seq<char> {
    if field == "quantity"@ {
        "quantity"@
    } else {
        crate::items::spec_map_sort_field(field)
    }
}

/// Resolves a client sort key for an inventory listing to a safe
/// internal field identifier.
pub fn map_sort_field(field: &str) -> (r: &'static str)
    ensures
        r@ == spec_map_sort_field(field@),
{
    if str_eq(field, "quantity") {
        "quantity"
    } else {
        crate::items::map_sort_field(field)
    }
}

} // verus!
