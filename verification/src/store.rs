use vstd::prelude::*;
use vstd::string::*;
use crate::ledger::InventoryItemQuantityAdjustmentParams;
use crate::inventories::InventoryCurrencyChangeInput;
use crate::query_plan::QueryPlan;

verus! {

#[verifier::external_type_specification]
#[verifier::external_body]
pub struct ExQuery(neo4rs::Query);

/// The text a store query carries.
pub uninterp spec fn query_text(q: neo4rs::Query) -> Seq<char>;

/// The string-valued parameters a store query carries, by name.
pub uninterp spec fn query_str_params(q: neo4rs::Query) -> Map<Seq<char>, Seq<char>>;

/// The integer-valued parameters a store query carries, by name.
pub uninterp spec fn query_int_params(q: neo4rs::Query) -> Map<Seq<char>, int>;

/// The empty string-parameter map.
pub open spec fn empty_str_params() -> Map<Seq<char>, Seq<char>> {
    Map::empty()
}

/// The empty integer-parameter map.
pub open spec fn empty_int_params() -> Map<Seq<char>, int> {
    Map::empty()
}

/// Relies on neo4rs::query, which wraps the given text in a query with
/// an empty parameter map.
#[verifier::external_body]
pub(crate) fn new_query(text: &str) -> (q: neo4rs::Query)
    ensures
        query_text(q) == text@,
        query_str_params(q) == empty_str_params(),
        query_int_params(q) == empty_int_params(),
{
    neo4rs::query(text)
}

/// Relies on neo4rs::Query::param with a string value: it stores the
/// value under the key in the query's parameter map, replacing any
/// earlier binding of that key, and leaves the text alone.
#[verifier::external_body]
pub(crate) fn with_str_param(q: neo4rs::Query, key: &str, value: &str) -> (r: neo4rs::Query)
    ensures
        query_text(r) == query_text(q),
        query_str_params(r) == query_str_params(q).insert(key@, value@),
        query_int_params(r) == query_int_params(q).remove(key@),
{
    q.param(key, value)
}

/// Relies on neo4rs::Query::param with an i64 value: it stores the
/// integer under the key, replacing any earlier binding of that key,
/// and leaves the text alone.
#[verifier::external_body]
pub(crate) fn with_int_param(q: neo4rs::Query, key: &str, value: i64) -> (r: neo4rs::Query)
    ensures
        query_text(r) == query_text(q),
        query_int_params(r) == query_int_params(q).insert(key@, value as int),
        query_str_params(r) == query_str_params(q).remove(key@),
{
    q.param(key, value)
}

/// The text that reads the current quantity of one item within one
/// inventory, with zero for an absent holding.
pub open spec fn spec_current_quantity_query_text() -> Seq<char> {
    "MATCH (inv:Inventory {uuid: $inventory_uuid}), (item:Item {uuid: $item_uuid})\nOPTIONAL MATCH (inv)-[rel:CONTAINS]->(item:Item)\nRETURN item.uuid AS item_uuid, COALESCE(rel.quantity, 0) AS quantity"@
}

/// The query that reads the current quantity of one item within one
/// inventory.  Both identifiers travel as bound parameters.
pub fn current_quantity_query(inventory_uuid: &str, item_id: &str) -> (q: neo4rs::Query)
    ensures
        query_text(q) == spec_current_quantity_query_text(),
        query_str_params(q) == empty_str_params().insert("inventory_uuid"@, inventory_uuid@)
            .insert("item_uuid"@, item_id@),
        query_int_params(q) == empty_int_params(),
{
    let q = new_query(
        "MATCH (inv:Inventory {uuid: $inventory_uuid}), (item:Item {uuid: $item_uuid})\nOPTIONAL MATCH (inv)-[rel:CONTAINS]->(item:Item)\nRETURN item.uuid AS item_uuid, COALESCE(rel.quantity, 0) AS quantity",
    );
    let q = with_str_param(q, "inventory_uuid", inventory_uuid);
    let q = with_str_param(q, "item_uuid", item_id);
    proof {
        assert(Map::<Seq<char>, int>::empty().remove("inventory_uuid"@).remove("item_uuid"@)
            =~= Map::<Seq<char>, int>::empty());
    }
    q
}

/// The text that upserts one holding by a signed quantity change and
/// deletes it when the new quantity is exactly zero.
pub open spec fn spec_adjustment_query_text() -> Seq<char> {
    "MATCH (inv:Inventory {uuid: $inventory_uuid}), (item:Item {uuid: $item_uuid})\nMERGE (inv)-[rel:CONTAINS]->(item)\nON CREATE SET rel.quantity = $quantity_change\nON MATCH SET rel.quantity = rel.quantity + $quantity_change\nWITH inv, item, rel\nFOREACH (ignoreMe IN CASE WHEN rel.quantity = 0 THEN [1] ELSE [] END |\nDELETE rel\n)\nRETURN item, inv.uuid as inventory_uuid"@
}

/// The query that applies one quantity adjustment to one holding.  The
/// identifiers travel as string parameters and the signed change as an
/// integer parameter.
pub fn adjustment_query(inventory_uuid: &str, item: &InventoryItemQuantityAdjustmentParams) -> (q:
    neo4rs::Query)
    ensures
        query_text(q) == spec_adjustment_query_text(),
        query_str_params(q) == empty_str_params().insert("inventory_uuid"@, inventory_uuid@)
            .insert("item_uuid"@, item.item_id@),
        query_int_params(q) == empty_int_params().insert("quantity_change"@, item@.quantity_change),
{
    let q = new_query(
        "MATCH (inv:Inventory {uuid: $inventory_uuid}), (item:Item {uuid: $item_uuid})\nMERGE (inv)-[rel:CONTAINS]->(item)\nON CREATE SET rel.quantity = $quantity_change\nON MATCH SET rel.quantity = rel.quantity + $quantity_change\nWITH inv, item, rel\nFOREACH (ignoreMe IN CASE WHEN rel.quantity = 0 THEN [1] ELSE [] END |\nDELETE rel\n)\nRETURN item, inv.uuid as inventory_uuid",
    );
    let q = with_str_param(q, "inventory_uuid", inventory_uuid);
    let q = with_str_param(q, "item_uuid", item.item_id.as_str());
    let q = with_int_param(q, "quantity_change", item.quantity_change as i64);
    proof {
        reveal_strlit("inventory_uuid");
        reveal_strlit("item_uuid");
        reveal_strlit("quantity_change");
        assert("quantity_change"@.len() == 15);
        assert("inventory_uuid"@.len() == 14);
        assert("item_uuid"@.len() == 9);
        assert("quantity_change"@ != "inventory_uuid"@);
        assert("quantity_change"@ != "item_uuid"@);
        assert(Map::<Seq<char>, int>::empty().remove("inventory_uuid"@).remove("item_uuid"@).insert(
            "quantity_change"@,
            item@.quantity_change,
        ) =~= Map::<Seq<char>, int>::empty().insert("quantity_change"@, item@.quantity_change));
        assert(Map::<Seq<char>, Seq<char>>::empty().insert("inventory_uuid"@, inventory_uuid@)
            .insert("item_uuid"@, item.item_id@).remove("quantity_change"@) =~= Map::<
            Seq<char>,
            Seq<char>,
        >::empty().insert("inventory_uuid"@, inventory_uuid@).insert("item_uuid"@, item.item_id@));
    }
    q
}

/// The text that credits a signed currency change to an inventory's
/// four coin balances.
pub open spec fn spec_currency_update_query_text() -> Seq<char> {
    "MATCH (inv:Inventory {uuid: $inventory_uuid})\nSET inv.pp = inv.pp + $pp, inv.gp = inv.gp + $gp, inv.sp = inv.sp + $sp, inv.cp = inv.cp + $cp\nRETURN inv"@
}

/// The query that credits a signed currency change to one inventory.
pub fn currency_update_query(inventory_uuid: &str, change: &InventoryCurrencyChangeInput) -> (q:
    neo4rs::Query)
    ensures
        query_text(q) == spec_currency_update_query_text(),
        query_str_params(q) == empty_str_params().insert("inventory_uuid"@, inventory_uuid@),
        query_int_params(q) == empty_int_params().insert("pp"@, change.pp as int).insert(
            "gp"@,
            change.gp as int,
        ).insert("sp"@, change.sp as int).insert("cp"@, change.cp as int),
{
    let q = new_query(
        "MATCH (inv:Inventory {uuid: $inventory_uuid})\nSET inv.pp = inv.pp + $pp, inv.gp = inv.gp + $gp, inv.sp = inv.sp + $sp, inv.cp = inv.cp + $cp\nRETURN inv",
    );
    let q = with_str_param(q, "inventory_uuid", inventory_uuid);
    let q = with_int_param(q, "pp", change.pp as i64);
    let q = with_int_param(q, "gp", change.gp as i64);
    let q = with_int_param(q, "sp", change.sp as i64);
    let q = with_int_param(q, "cp", change.cp as i64);
    proof {
        reveal_strlit("inventory_uuid");
        reveal_strlit("pp");
        reveal_strlit("gp");
        reveal_strlit("sp");
        reveal_strlit("cp");
        assert("inventory_uuid"@.len() == 14);
        assert("pp"@.len() == 2 && "gp"@.len() == 2 && "sp"@.len() == 2 && "cp"@.len() == 2);
        assert("pp"@[0] == 'p' && "gp"@[0] == 'g' && "sp"@[0] == 's' && "cp"@[0] == 'c');
        assert("pp"@ != "inventory_uuid"@ && "gp"@ != "inventory_uuid"@ && "sp"@
            != "inventory_uuid"@ && "cp"@ != "inventory_uuid"@);
        assert("pp"@ != "gp"@ && "pp"@ != "sp"@ && "pp"@ != "cp"@ && "gp"@ != "sp"@ && "gp"@
            != "cp"@ && "sp"@ != "cp"@);
        assert(query_str_params(q) =~= Map::<Seq<char>, Seq<char>>::empty().insert(
            "inventory_uuid"@,
            inventory_uuid@,
        ));
        assert(query_int_params(q) =~= Map::<Seq<char>, int>::empty().insert(
            "pp"@,
            change.pp as int,
        ).insert("gp"@, change.gp as int).insert("sp"@, change.sp as int).insert(
            "cp"@,
            change.cp as int,
        ));
    }
    q
}

/// The map an ordered list of name/value bindings denotes, later
/// entries overriding earlier ones.
pub open spec fn spec_params_map(ps: Seq<(Seq<char>, Seq<char>)>) -> Map<Seq<char>, Seq<char>>
    decreases ps.len(),
{
    if ps.len() == 0 {
        Map::empty()
    } else {
        spec_params_map(ps.drop_last()).insert(ps.last().0, ps.last().1)
    }
}

/// Turns a compiled item-catalogue listing plan into a store query: the
/// compiled text, every bound filter parameter, and the window as the
/// integer parameters `skip` and `limit`.
pub fn plan_to_query(plan: &QueryPlan) -> (q: neo4rs::Query)
    requires
        plan.skip <= i64::MAX,
    ensures
        query_text(q) == plan.text@,
        query_str_params(q) == spec_params_map(
            crate::filter::pairs_view(plan.params@),
        ).remove("skip"@).remove("limit"@),
        query_int_params(q) == empty_int_params().insert("skip"@, plan.skip as int).insert(
            "limit"@,
            plan.limit as int,
        ),
{
    let ghost pv = crate::filter::pairs_view(plan.params@);
    let mut q = new_query(plan.text.as_str());
    let mut i: usize = 0;
    proof {
        assert(pv.take(0) =~= Seq::<(Seq<char>, Seq<char>)>::empty());
    }
    while i < plan.params.len()
        invariant
            i <= plan.params@.len(),
            pv == crate::filter::pairs_view(plan.params@),
            pv.len() == plan.params@.len(),
            query_text(q) == plan.text@,
            query_str_params(q) == spec_params_map(pv.take(i as int)),
            query_int_params(q) == empty_int_params(),
        decreases plan.params@.len() - i,
    {
        proof {
            assert(pv.take(i as int + 1).drop_last() =~= pv.take(i as int));
            assert(pv.take(i as int + 1).last() == pv[i as int]);
            assert(pv[i as int] == (plan.params@[i as int].0@, plan.params@[i as int].1@));
        }
        q = with_str_param(q, plan.params[i].0.as_str(), plan.params[i].1.as_str());
        proof {
            assert(query_int_params(q) =~= Map::<Seq<char>, int>::empty());
        }
        i = i + 1;
    }
    proof {
        assert(pv.take(plan.params@.len() as int) =~= pv);
    }
    let q = with_int_param(q, "skip", plan.skip as i64);
    let q = with_int_param(q, "limit", plan.limit as i64);
    proof {
        reveal_strlit("skip");
        reveal_strlit("limit");
        assert(query_str_params(q) =~= spec_params_map(pv).remove("skip"@).remove("limit"@));
        assert(query_int_params(q) =~= Map::<Seq<char>, int>::empty().insert(
            "skip"@,
            plan.skip as int,
        ).insert("limit"@, plan.limit as int));
    }
    q
}

/// Turns a compiled inventory-contents listing plan into a store query:
/// as for the catalogue, plus the inventory identity under `uuid`.
pub fn inventory_plan_to_query(plan: &QueryPlan, inventory_uuid: &str) -> (q: neo4rs::Query)
    requires
        plan.skip <= i64::MAX,
    ensures
        query_text(q) == plan.text@,
        query_str_params(q) == spec_params_map(
            crate::filter::pairs_view(plan.params@),
        ).insert("uuid"@, inventory_uuid@).remove("skip"@).remove("limit"@),
        query_int_params(q) == empty_int_params().insert("skip"@, plan.skip as int).insert(
            "limit"@,
            plan.limit as int,
        ),
{
    let q = plan_to_query(plan);
    let q = with_str_param(q, "uuid", inventory_uuid);
    proof {
        reveal_strlit("skip");
        reveal_strlit("limit");
        reveal_strlit("uuid");
        assert("uuid"@.len() == 4 && "skip"@.len() == 4 && "limit"@.len() == 5);
        assert("uuid"@[0] == 'u' && "skip"@[0] == 's');
        assert("uuid"@ != "skip"@ && "uuid"@ != "limit"@);
        assert(query_str_params(q) =~= spec_params_map(crate::filter::pairs_view(plan.params@))
            .insert("uuid"@, inventory_uuid@).remove("skip"@).remove("limit"@));
        assert(query_int_params(q) =~= Map::<Seq<char>, int>::empty().insert(
            "skip"@,
            plan.skip as int,
        ).insert("limit"@, plan.limit as int));
    }
    q
}

/// Turns a compiled counting query into a store query, with the
/// inventory identity under `uuid` when one applies.
pub fn count_to_query(text: &str, params: &Vec<(String, String)>, inventory_uuid: &Option<String>)
    -> (q: neo4rs::Query)
    ensures
        query_text(q) == text@,
        query_str_params(q) == (match inventory_uuid {
            Some(u) => spec_params_map(crate::filter::pairs_view(params@)).insert("uuid"@, u@),
            None => spec_params_map(crate::filter::pairs_view(params@)),
        }),
        query_int_params(q) == empty_int_params(),
{
    let ghost pv = crate::filter::pairs_view(params@);
    let mut q = new_query(text);
    let mut i: usize = 0;
    proof {
        assert(pv.take(0) =~= Seq::<(Seq<char>, Seq<char>)>::empty());
    }
    while i < params.len()
        invariant
            i <= params@.len(),
            pv == crate::filter::pairs_view(params@),
            pv.len() == params@.len(),
            query_text(q) == text@,
            query_str_params(q) == spec_params_map(pv.take(i as int)),
            query_int_params(q) == empty_int_params(),
        decreases params@.len() - i,
    {
        proof {
            assert(pv.take(i as int + 1).drop_last() =~= pv.take(i as int));
            assert(pv.take(i as int + 1).last() == pv[i as int]);
            assert(pv[i as int] == (params@[i as int].0@, params@[i as int].1@));
        }
        q = with_str_param(q, params[i].0.as_str(), params[i].1.as_str());
        proof {
            assert(query_int_params(q) =~= Map::<Seq<char>, int>::empty());
        }
        i = i + 1;
    }
    proof {
        assert(pv.take(params@.len() as int) =~= pv);
    }
    match inventory_uuid {
        Some(u) => {
            let q2 = with_str_param(q, "uuid", u.as_str());
            proof {
                assert(query_int_params(q2) =~= Map::<Seq<char>, int>::empty());
            }
            q2
        },
        None => q,
    }
}

/// The text that fetches one item with its collected traits, the
/// identity travelling as the bound parameter `$uuid`.
pub open spec fn spec_item_by_uuid_query_text() -> Seq<char> {
    "MATCH (item:Item {uuid: $uuid})\nOPTIONAL MATCH (item)-[:HAS_TRAIT]->(trait:Trait)\nWITH item, COLLECT(trait.name) as item_traits\nRETURN\nitem.uuid as uuid,\nCOALESCE(item.effect, 'No effect') as effect,\nCOALESCE(item.level, 0) as level,\nitem.value as value,\ntoInteger(COALESCE(item.value, '0')) AS numeric_value,\nitem_traits as traits,\ntoFloat(COALESCE(item.bulk, 0)) as bulk,\nitem.name as name,\nCOALESCE(item.description, 'No description') as description,\nCOALESCE(item.activation_cost, 'n/a') as activation_cost,\nCOALESCE(item.usage_requirements, 'Not usable') as usage_requirements"@
}

/// The query that fetches one item by its identity.
pub fn item_by_uuid_query(uuid: &str) -> (q: neo4rs::Query)
    ensures
        query_text(q) == spec_item_by_uuid_query_text(),
        query_str_params(q) == empty_str_params().insert("uuid"@, uuid@),
        query_int_params(q) == empty_int_params(),
{
    let q = new_query(
        "MATCH (item:Item {uuid: $uuid})\nOPTIONAL MATCH (item)-[:HAS_TRAIT]->(trait:Trait)\nWITH item, COLLECT(trait.name) as item_traits\nRETURN\nitem.uuid as uuid,\nCOALESCE(item.effect, 'No effect') as effect,\nCOALESCE(item.level, 0) as level,\nitem.value as value,\ntoInteger(COALESCE(item.value, '0')) AS numeric_value,\nitem_traits as traits,\ntoFloat(COALESCE(item.bulk, 0)) as bulk,\nitem.name as name,\nCOALESCE(item.description, 'No description') as description,\nCOALESCE(item.activation_cost, 'n/a') as activation_cost,\nCOALESCE(item.usage_requirements, 'Not usable') as usage_requirements",
    );
    let q = with_str_param(q, "uuid", uuid);
    proof {
        assert(query_int_params(q) =~= empty_int_params());
    }
    q
}

/// The text that lists every trait with its description, by name.
pub open spec fn spec_traits_query_text() -> Seq<char> {
    "MATCH (trait:Trait) RETURN trait.name as name, trait.description as description ORDER BY name"@
}

/// The query that lists every trait.
pub fn traits_query() -> (q: neo4rs::Query)
    ensures
        query_text(q) == spec_traits_query_text(),
        query_str_params(q) == empty_str_params(),
        query_int_params(q) == empty_int_params(),
{
    new_query(
        "MATCH (trait:Trait) RETURN trait.name as name, trait.description as description ORDER BY name",
    )
}

/// The text that fetches one inventory by its own identity.
pub open spec fn spec_inventory_by_uuid_query_text() -> Seq<char> {
    "MATCH(inv:Inventory{uuid: $uuid}) return (inv)"@
}

/// The query that fetches one inventory by its own identity.
pub fn inventory_by_uuid_query(uuid: &str) -> (q: neo4rs::Query)
    ensures
        query_text(q) == spec_inventory_by_uuid_query_text(),
        query_str_params(q) == empty_str_params().insert("uuid"@, uuid@),
        query_int_params(q) == empty_int_params(),
{
    let q = new_query("MATCH(inv:Inventory{uuid: $uuid}) return (inv)");
    let q = with_str_param(q, "uuid", uuid);
    proof {
        assert(query_int_params(q) =~= empty_int_params());
    }
    q
}

/// The text that fetches the inventory a character owns.
pub open spec fn spec_inventory_by_character_query_text() -> Seq<char> {
    "MATCH(char:Character{uuid: $uuid})-[:OWNS]->(inv:Inventory) return (inv)"@
}

/// The query that fetches the inventory a character owns.
pub fn inventory_by_character_query(uuid: &str) -> (q: neo4rs::Query)
    ensures
        query_text(q) == spec_inventory_by_character_query_text(),
        query_str_params(q) == empty_str_params().insert("uuid"@, uuid@),
        query_int_params(q) == empty_int_params(),
{
    let q = new_query("MATCH(char:Character{uuid: $uuid})-[:OWNS]->(inv:Inventory) return (inv)");
    let q = with_str_param(q, "uuid", uuid);
    proof {
        assert(query_int_params(q) =~= empty_int_params());
    }
    q
}

/// The text that fetches the inventory any owner holds, by the owner's
/// identity.
pub open spec fn spec_inventory_by_owner_query_text() -> Seq<char> {
    "MATCH(owner{uuid: $uuid})-[:OWNS]->(inv:Inventory) return (inv)"@
}

/// The query that fetches the inventory any owner holds.
pub fn inventory_by_owner_query(uuid: &str) -> (q: neo4rs::Query)
    ensures
        query_text(q) == spec_inventory_by_owner_query_text(),
        query_str_params(q) == empty_str_params().insert("uuid"@, uuid@),
        query_int_params(q) == empty_int_params(),
{
    let q = new_query("MATCH(owner{uuid: $uuid})-[:OWNS]->(inv:Inventory) return (inv)");
    let q = with_str_param(q, "uuid", uuid);
    proof {
        assert(query_int_params(q) =~= empty_int_params());
    }
    q
}

/// The text that fetches an inventory by a case-insensitive substring
/// of its owner's name, the term travelling as a bound parameter.
pub open spec fn spec_inventory_by_owner_name_query_text() -> Seq<char> {
    "MATCH(owner)-[:OWNS]->(inv:Inventory) WHERE toLower(owner.name) CONTAINS toLower($name) return (inv)"@
}

/// The query that fetches an inventory by its owner's name.
pub fn inventory_by_owner_name_query(name: &str) -> (q: neo4rs::Query)
    ensures
        query_text(q) == spec_inventory_by_owner_name_query_text(),
        query_str_params(q) == empty_str_params().insert("name"@, name@),
        query_int_params(q) == empty_int_params(),
{
    let q = new_query(
        "MATCH(owner)-[:OWNS]->(inv:Inventory) WHERE toLower(owner.name) CONTAINS toLower($name) return (inv)",
    );
    let q = with_str_param(q, "name", name);
    proof {
        assert(query_int_params(q) =~= empty_int_params());
    }
    q
}

/// The text that lists every inventory.
pub open spec fn spec_inventories_query_text() -> Seq<char> {
    "MATCH(inv:Inventory) return (inv)"@
}

/// The query that lists every inventory.
pub fn inventories_query() -> (q: neo4rs::Query)
    ensures
        query_text(q) == spec_inventories_query_text(),
        query_str_params(q) == empty_str_params(),
        query_int_params(q) == empty_int_params(),
{
    new_query("MATCH(inv:Inventory) return (inv)")
}

} // verus!
