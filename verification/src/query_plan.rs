use vstd::prelude::*;
use vstd::string::*;
use crate::errors::CoreError;
use crate::filter::{
    pairs_view, spec_compiled_text, spec_params, FilterView, InventoryItemQueryFilter,
    ItemQueryFilter,
};
use crate::pagination::{offset, spec_offset};
use crate::text::{replace_marker, spec_replace, str_eq};

verus! {

/// A fully compiled listing query: the parameterized text, the bound
/// parameters the filter produced, and the window the store should
/// return.  The text never holds client-supplied characters outside of
/// bound-parameter slots.
#[derive(Debug)]
pub struct QueryPlan {
    pub text: String,
    pub params: Vec<(String, String)>,
    pub skip: u64,
    pub limit: u32,
}

/// The listing template for the item catalogue.  `<FILTER>` takes the
/// compiled filter clause, `<ORDER_FIELD>` and `<ORDER_DIR>` take
/// whitelisted identifiers only, and the window travels as the bound
/// parameters `$skip` and `$limit`.  The secondary `uuid DESC` key makes
/// paging stable when the primary sort ties.
pub open spec fn spec_item_listing_template() -> Seq<char> {
    "MATCH (item:Item)\n<FILTER>\nOPTIONAL MATCH (item)-[:HAS_TRAIT]->(trait:Trait)\nWITH item, COLLECT(trait.name) as item_traits\nRETURN\nitem.uuid as uuid,\nCOALESCE(item.effect, 'No effect') as effect,\nCOALESCE(item.level, 0) as level,\nitem.value as value,\ntoInteger(COALESCE(item.value, '0')) AS numeric_value,\nitem_traits as traits,\ntoFloat(COALESCE(item.bulk, 0)) as bulk,\nitem.name as name,\nCOALESCE(item.description, 'No description') as description,\nCOALESCE(item.activation_cost, 'n/a') as activation_cost,\nCOALESCE(item.usage_requirements, 'Not usable') as usage_requirements\nORDER BY <ORDER_FIELD> <ORDER_DIR>, uuid DESC\nSKIP $skip LIMIT $limit"@
}

/// The exec text of the item listing template.
pub fn item_listing_template() -> (r: &'static str)
    ensures
        r@ == spec_item_listing_template(),
{
    "MATCH (item:Item)\n<FILTER>\nOPTIONAL MATCH (item)-[:HAS_TRAIT]->(trait:Trait)\nWITH item, COLLECT(trait.name) as item_traits\nRETURN\nitem.uuid as uuid,\nCOALESCE(item.effect, 'No effect') as effect,\nCOALESCE(item.level, 0) as level,\nitem.value as value,\ntoInteger(COALESCE(item.value, '0')) AS numeric_value,\nitem_traits as traits,\ntoFloat(COALESCE(item.bulk, 0)) as bulk,\nitem.name as name,\nCOALESCE(item.description, 'No description') as description,\nCOALESCE(item.activation_cost, 'n/a') as activation_cost,\nCOALESCE(item.usage_requirements, 'Not usable') as usage_requirements\nORDER BY <ORDER_FIELD> <ORDER_DIR>, uuid DESC\nSKIP $skip LIMIT $limit"
}

/// The companion counting template for the item catalogue: the same
/// match and filter, projecting only the count.
pub open spec fn spec_item_count_template() -> Seq<char> {
    "MATCH (item:Item) <FILTER> RETURN count(item) as total"@
}

/// The exec text of the item counting template.
pub fn item_count_template() -> (r: &'static str)
    ensures
        r@ == spec_item_count_template(),
{
    "MATCH (item:Item) <FILTER> RETURN count(item) as total"
}

/// The listing template for one inventory's contents; the inventory
/// travels as the bound parameter `$uuid`.
pub open spec fn spec_inventory_items_listing_template() -> Seq<char> {
    "MATCH (inv:Inventory{uuid: $uuid})\nMATCH (inv)-[c:CONTAINS]->(item:Item)\n<FILTER>\nOPTIONAL MATCH (item)-[:HAS_TRAIT]->(trait:Trait)\nWITH item, c, COLLECT(trait.name) as item_traits\nRETURN\nitem.uuid as uuid,\nc.quantity as quantity,\nCOALESCE(item.effect, 'No effect') as effect,\nCOALESCE(item.level, 0) as level,\nitem.value as value,\ntoInteger(COALESCE(item.value, '0')) AS numeric_value,\nitem_traits as traits,\ntoFloat(COALESCE(item.bulk, 0)) as bulk,\nitem.name as name,\nCOALESCE(item.description, 'No description') as description,\nCOALESCE(item.activation_cost, 'n/a') as activation_cost,\nCOALESCE(item.usage_requirements, 'Not usable') as usage_requirements\nORDER BY <ORDER_FIELD> <ORDER_DIR>, uuid DESC\nSKIP $skip LIMIT $limit"@
}

/// The exec text of the inventory-contents listing template.
pub fn inventory_items_listing_template() -> (r: &'static str)
    ensures
        r@ == spec_inventory_items_listing_template(),
{
    "MATCH (inv:Inventory{uuid: $uuid})\nMATCH (inv)-[c:CONTAINS]->(item:Item)\n<FILTER>\nOPTIONAL MATCH (item)-[:HAS_TRAIT]->(trait:Trait)\nWITH item, c, COLLECT(trait.name) as item_traits\nRETURN\nitem.uuid as uuid,\nc.quantity as quantity,\nCOALESCE(item.effect, 'No effect') as effect,\nCOALESCE(item.level, 0) as level,\nitem.value as value,\ntoInteger(COALESCE(item.value, '0')) AS numeric_value,\nitem_traits as traits,\ntoFloat(COALESCE(item.bulk, 0)) as bulk,\nitem.name as name,\nCOALESCE(item.description, 'No description') as description,\nCOALESCE(item.activation_cost, 'n/a') as activation_cost,\nCOALESCE(item.usage_requirements, 'Not usable') as usage_requirements\nORDER BY <ORDER_FIELD> <ORDER_DIR>, uuid DESC\nSKIP $skip LIMIT $limit"
}

/// The companion counting template for one inventory's contents.
pub open spec fn spec_inventory_items_count_template() -> Seq<char> {
    "MATCH (inv:Inventory{uuid: $uuid}) MATCH (inv)-[c:CONTAINS]->(item:Item) <FILTER> RETURN count(item) as total"@
}

/// The exec text of the inventory-contents counting template.
pub fn inventory_items_count_template() -> (r: &'static str)
    ensures
        r@ == spec_inventory_items_count_template(),
{
    "MATCH (inv:Inventory{uuid: $uuid}) MATCH (inv)-[c:CONTAINS]->(item:Item) <FILTER> RETURN count(item) as total"
}

/// The sort direction actually used: `ASC` when asked for exactly, and
/// `DESC` for any other input.  Client text never reaches the query.
pub open spec fn spec_direction(dir: Seq<char>) -> Seq<char> {
    if dir == "ASC"@ {
        "ASC"@
    } else {
        "DESC"@
    }
}

/// Resolves the sort direction.
pub fn direction(dir: &str) -> (r: &'static str)
    ensures
        r@ == spec_direction(dir@),
{
    if str_eq(dir, "ASC") {
        "ASC"
    } else {
        "DESC"
    }
}

/// The final listing text: the template with its order markers replaced
/// by whitelisted identifiers, then its filter marker replaced by the
/// compiled clause.
pub open spec fn spec_listing_text(
    template: Seq<char>,
    sort_field: Seq<char>,
    dir: Seq<char>,
    f: FilterView,
) -> Seq<char> {
    spec_compiled_text(
        f,
        spec_replace(
            spec_replace(template, "<ORDER_FIELD>"@, sort_field),
            "<ORDER_DIR>"@,
            spec_direction(dir),
        ),
    )
}

/// Builds the listing plan for the item catalogue: sort key and
/// direction resolve through their whitelists, the filter compiles into
/// the template, and the page request becomes the `skip`/`limit` window.
/// A zero page size is an illegal input.
pub fn build_item_listing(
    filter: &ItemQueryFilter,
    order_by: &str,
    order_direction: &str,
    page_index: u32,
    page_size: u32,
) -> (r: Result<QueryPlan, CoreError>)
    ensures
        page_size == 0 <==> r is Err,
        r matches Err(e) ==> e == CoreError::InvalidArgument,
        r matches Ok(p) ==> {
            &&& p.text@ == spec_listing_text(
                spec_item_listing_template(),
                crate::items::spec_map_sort_field(order_by@),
                order_direction@,
                filter@,
            )
            &&& pairs_view(p.params@) == spec_params(filter@)
            &&& p.skip == spec_offset(page_index as int, page_size as int)
            &&& p.limit == page_size
        },
{
    let skip = match offset(page_index, page_size) {
        Ok(s) => s,
        Err(e) => {
            return Err(e);
        },
    };
    let sort_field = crate::items::map_sort_field(order_by);
    let dir = direction(order_direction);
    proof {
        reveal_strlit("<ORDER_FIELD>");
        reveal_strlit("<ORDER_DIR>");
    }
    let t1 = replace_marker(item_listing_template(), "<ORDER_FIELD>", sort_field);
    let t2 = replace_marker(t1.as_str(), "<ORDER_DIR>", dir);
    let (text, params) = filter.to_cypher_query(t2.as_str());
    Ok(QueryPlan { text, params, skip, limit: page_size })
}

/// Builds the companion counting query for the item catalogue: the same
/// filter semantics against the counting template.
pub fn build_item_count(filter: &ItemQueryFilter) -> (r: (String, Vec<(String, String)>))
    ensures
        r.0@ == spec_compiled_text(filter@, spec_item_count_template()),
        pairs_view(r.1@) == spec_params(filter@),
{
    filter.to_cypher_query(item_count_template())
}

/// Builds the listing plan for one inventory's contents, with the
/// quantity-aware sort whitelist.
pub fn build_inventory_items_listing(
    filter: &InventoryItemQueryFilter,
    order_by: &str,
    order_direction: &str,
    page_index: u32,
    page_size: u32,
) -> (r: Result<QueryPlan, CoreError>)
    ensures
        page_size == 0 <==> r is Err,
        r matches Err(e) ==> e == CoreError::InvalidArgument,
        r matches Ok(p) ==> {
            &&& p.text@ == spec_listing_text(
                spec_inventory_items_listing_template(),
                crate::inventory_items::spec_map_sort_field(order_by@),
                order_direction@,
                filter@,
            )
            &&& pairs_view(p.params@) == spec_params(filter@)
            &&& p.skip == spec_offset(page_index as int, page_size as int)
            &&& p.limit == page_size
        },
{
    let skip = match offset(page_index, page_size) {
        Ok(s) => s,
        Err(e) => {
            return Err(e);
        },
    };
    let sort_field = crate::inventory_items::map_sort_field(order_by);
    let dir = direction(order_direction);
    proof {
        reveal_strlit("<ORDER_FIELD>");
        reveal_strlit("<ORDER_DIR>");
    }
    let t1 = replace_marker(inventory_items_listing_template(), "<ORDER_FIELD>", sort_field);
    let t2 = replace_marker(t1.as_str(), "<ORDER_DIR>", dir);
    let (text, params) = filter.to_cypher_query(t2.as_str());
    Ok(QueryPlan { text, params, skip, limit: page_size })
}

/// Builds the companion counting query for one inventory's contents.
pub fn build_inventory_items_count(filter: &InventoryItemQueryFilter) -> (r: (
    String,
    Vec<(String, String)>,
))
    ensures
        r.0@ == spec_compiled_text(filter@, spec_inventory_items_count_template()),
        pairs_view(r.1@) == spec_params(filter@),
{
    filter.to_cypher_query(inventory_items_count_template())
}

} // verus!
