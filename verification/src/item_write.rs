use vstd::prelude::*;
use vstd::string::*;
use crate::store::{empty_int_params, query_int_params, query_str_params, query_text};
use crate::text::{join, replace_marker, spec_join, spec_replace, u64_to_string, spec_decimal};

verus! {

/// The fields an item update may carry.  Only the fields that are
/// present reach the assignment clause; the bulk weight is a
/// floating-point store field, so the caller binds its value itself and
/// only says here whether the assignment appears.
pub struct ItemUpdateFields {
    pub name: Option<String>,
    pub level: Option<u16>,
    pub activation_cost: Option<String>,
    pub has_bulk: bool,
    pub description: Option<String>,
    pub usage_requirements: Option<String>,
    pub value: Option<u64>,
    pub effect: Option<String>,
}

/// The assignment fragments an update compiles to, in a fixed field
/// order.  Each fragment assigns one property from its like-named
/// parameter; no field value ever stands in the text.
pub open spec fn spec_update_fragments(f: ItemUpdateFields) -> Seq<Seq<char>> {
    (if f.name is Some {
        seq!["item.name = $name"@]
    } else {
        Seq::empty()
    }) + (if f.level is Some {
        seq!["item.level = $level"@]
    } else {
        Seq::empty()
    }) + (if f.activation_cost is Some {
        seq!["item.activation_cost = $activation_cost"@]
    } else {
        Seq::empty()
    }) + (if f.has_bulk {
        seq!["item.bulk = $bulk"@]
    } else {
        Seq::empty()
    }) + (if f.description is Some {
        seq!["item.description = $description"@]
    } else {
        Seq::empty()
    }) + (if f.usage_requirements is Some {
        seq!["item.usage_requirements = $usage_requirements"@]
    } else {
        Seq::empty()
    }) + (if f.value is Some {
        seq!["item.value = $value"@]
    } else {
        Seq::empty()
    }) + (if f.effect is Some {
        seq!["item.effect = $effect"@]
    } else {
        Seq::empty()
    })
}

/// The update template: the assignment clause replaces `<SET_CLAUSE>`,
/// and the trait list is rebuilt from the `$traits` parameter.
pub open spec fn spec_item_update_template() -> Seq<char> {
    "MATCH (item:Item {uuid: $item_uuid})\nSET <SET_CLAUSE>\nWITH item\nOPTIONAL MATCH (item)-[r:HAS_TRAIT]->(:Trait)\nDELETE r\nWITH item\nUNWIND $traits as trait_name\nMERGE (t:Trait {name: trait_name})\nMERGE (item)-[:HAS_TRAIT]->(t)\nRETURN item.uuid as uuid"@
}

/// The exec text of the update template.
pub fn item_update_template() -> (r: &'static str)
    ensures
        r@ == spec_item_update_template(),
{
    "MATCH (item:Item {uuid: $item_uuid})\nSET <SET_CLAUSE>\nWITH item\nOPTIONAL MATCH (item)-[r:HAS_TRAIT]->(:Trait)\nDELETE r\nWITH item\nUNWIND $traits as trait_name\nMERGE (t:Trait {name: trait_name})\nMERGE (item)-[:HAS_TRAIT]->(t)\nRETURN item.uuid as uuid"
}

/// The full update text: the template with the assignment fragments
/// joined by commas in the clause slot.
pub open spec fn spec_item_update_text(f: ItemUpdateFields) -> Seq<char> {
    spec_replace(
        spec_item_update_template(),
        "<SET_CLAUSE>"@,
        spec_join(spec_update_fragments(f), ", "@),
    )
}

/// Builds the text of an item update from the present fields.
#[verifier::rlimit(100)]
pub fn build_item_update_text(fields: &ItemUpdateFields) -> (r: String)
    ensures
        r@ == spec_item_update_text(*fields),
{
    let mut fragments: Vec<String> = Vec::new();
    proof {
        assert(fragments@.map_values(|p: String| p@) =~= Seq::<Seq<char>>::empty());
    }
    if fields.name.is_some() {
        fragments.push("item.name = $name".to_owned());
    }
    if fields.level.is_some() {
        fragments.push("item.level = $level".to_owned());
    }
    if fields.activation_cost.is_some() {
        fragments.push("item.activation_cost = $activation_cost".to_owned());
    }
    if fields.has_bulk {
        fragments.push("item.bulk = $bulk".to_owned());
    }
    if fields.description.is_some() {
        fragments.push("item.description = $description".to_owned());
    }
    if fields.usage_requirements.is_some() {
        fragments.push("item.usage_requirements = $usage_requirements".to_owned());
    }
    if fields.value.is_some() {
        fragments.push("item.value = $value".to_owned());
    }
    if fields.effect.is_some() {
        fragments.push("item.effect = $effect".to_owned());
    }
    proof {
        assert(fragments@.map_values(|p: String| p@) =~= spec_update_fragments(*fields));
    }
    let clause = join(&fragments, ", ");
    proof {
        reveal_strlit("<SET_CLAUSE>");
    }
    replace_marker(item_update_template(), "<SET_CLAUSE>", clause.as_str())
}

/// The string parameters of an item update: the identity, and each
/// present text field under its own name, with the value rendered in
/// decimal as the store keeps it.
pub open spec fn spec_item_update_str_params(item_uuid: Seq<char>, f: ItemUpdateFields) -> Map<
    Seq<char>,
    Seq<char>,
> {
    let m = Map::<Seq<char>, Seq<char>>::empty().insert("item_uuid"@, item_uuid);
    let m = match f.name {
        Some(v) => m.insert("name"@, v@),
        None => m,
    };
    let m = match f.activation_cost {
        Some(v) => m.insert("activation_cost"@, v@),
        None => m,
    };
    let m = match f.description {
        Some(v) => m.insert("description"@, v@),
        None => m,
    };
    let m = match f.usage_requirements {
        Some(v) => m.insert("usage_requirements"@, v@),
        None => m,
    };
    let m = match f.value {
        Some(v) => m.insert("value"@, spec_decimal(v as int)),
        None => m,
    };
    match f.effect {
        Some(v) => m.insert("effect"@, v@),
        None => m,
    }
}

/// The integer parameters of an item update: the level, when present.
pub open spec fn spec_item_update_int_params(f: ItemUpdateFields) -> Map<Seq<char>, int> {
    match f.level {
        Some(l) => Map::<Seq<char>, int>::empty().insert("level"@, l as int),
        None => Map::empty(),
    }
}

/// Builds the complete update query: the compiled text and every
/// present field as a bound parameter.  The caller still binds the
/// floating-point bulk weight and the trait list before running it.
#[verifier::rlimit(100)]
pub fn build_item_update_query(item_uuid: &str, fields: &ItemUpdateFields) -> (q: neo4rs::Query)
    ensures
        query_text(q) == spec_item_update_text(*fields),
        query_str_params(q) == spec_item_update_str_params(item_uuid@, *fields),
        query_int_params(q) == spec_item_update_int_params(*fields),
{
    let text = build_item_update_text(fields);
    let mut q = crate::store::new_query(text.as_str());
    q = crate::store::with_str_param(q, "item_uuid", item_uuid);
    match &fields.name {
        Some(v) => {
            q = crate::store::with_str_param(q, "name", v.as_str());
        },
        None => {},
    }
    match &fields.activation_cost {
        Some(v) => {
            q = crate::store::with_str_param(q, "activation_cost", v.as_str());
        },
        None => {},
    }
    match &fields.description {
        Some(v) => {
            q = crate::store::with_str_param(q, "description", v.as_str());
        },
        None => {},
    }
    match &fields.usage_requirements {
        Some(v) => {
            q = crate::store::with_str_param(q, "usage_requirements", v.as_str());
        },
        None => {},
    }
    match fields.value {
        Some(v) => {
            let rendered = u64_to_string(v);
            q = crate::store::with_str_param(q, "value", rendered.as_str());
        },
        None => {},
    }
    match &fields.effect {
        Some(v) => {
            q = crate::store::with_str_param(q, "effect", v.as_str());
        },
        None => {},
    }
    match fields.level {
        Some(l) => {
            q = crate::store::with_int_param(q, "level", l as i64);
        },
        None => {},
    }
    proof {
        reveal_strlit("item_uuid");
        reveal_strlit("name");
        reveal_strlit("activation_cost");
        reveal_strlit("description");
        reveal_strlit("usage_requirements");
        reveal_strlit("value");
        reveal_strlit("effect");
        reveal_strlit("level");
        assert("item_uuid"@.len() == 9 && "name"@.len() == 4 && "activation_cost"@.len() == 15
            && "description"@.len() == 11 && "usage_requirements"@.len() == 18 && "value"@.len()
            == 5 && "effect"@.len() == 6 && "level"@.len() == 5);
        assert("value"@[0] == 'v' && "level"@[0] == 'l');
        assert("value"@ != "level"@);
        assert(query_str_params(q) =~= spec_item_update_str_params(item_uuid@, *fields));
        assert(query_int_params(q) =~= spec_item_update_int_params(*fields));
    }
    q
}

/// The fields of a new item.  An absent field takes its documented
/// default; the bulk weight is a floating-point store field and is
/// bound by the caller.
pub struct ItemCreationFields {
    pub name: Option<String>,
    pub level: Option<u16>,
    pub activation_cost: Option<String>,
    pub description: Option<String>,
    pub usage_requirements: Option<String>,
    pub value: Option<u64>,
    pub effect: Option<String>,
}

/// The creation text: a fresh identity from the store, every property
/// from its like-named parameter.
pub open spec fn spec_item_create_query_text() -> Seq<char> {
    "CREATE (item:Item {\nuuid: apoc.create.uuid(),\nname: $name,\nlevel: $level,\nactivation_cost: $activation_cost,\nbulk: $bulk,\ndescription: $description,\nusage_requirements: $usage_requirements,\nvalue: $value,\neffect: $effect\n}) RETURN item.uuid as uuid"@
}

/// The string parameters of an item creation, defaults filled in: a
/// nameless item is called `Unnamed Item`, a missing value counts as
/// zero and travels in decimal, and the other texts default to empty.
pub open spec fn spec_item_create_str_params(f: ItemCreationFields) -> Map<Seq<char>, Seq<char>> {
    Map::<Seq<char>, Seq<char>>::empty().insert(
        "name"@,
        crate::items::spec_text_or(f.name.deep_view(), "Unnamed Item"@),
    ).insert("activation_cost"@, crate::items::spec_text_or(f.activation_cost.deep_view(), ""@))
        .insert("description"@, crate::items::spec_text_or(f.description.deep_view(), ""@)).insert(
        "usage_requirements"@,
        crate::items::spec_text_or(f.usage_requirements.deep_view(), ""@),
    ).insert(
        "value"@,
        spec_decimal(
            match f.value {
                Some(v) => v as int,
                None => 0,
            },
        ),
    ).insert("effect"@, crate::items::spec_text_or(f.effect.deep_view(), ""@))
}

/// Builds the complete creation query with every default filled in.
/// The caller still binds the floating-point bulk weight.
#[verifier::rlimit(100)]
pub fn build_item_create_query(fields: ItemCreationFields) -> (q: neo4rs::Query)
    ensures
        query_text(q) == spec_item_create_query_text(),
        query_str_params(q) == spec_item_create_str_params(fields),
        query_int_params(q) == empty_int_params().insert(
            "level"@,
            match fields.level {
                Some(l) => l as int,
                None => 0,
            },
        ),
{
    let mut q = crate::store::new_query(
        "CREATE (item:Item {\nuuid: apoc.create.uuid(),\nname: $name,\nlevel: $level,\nactivation_cost: $activation_cost,\nbulk: $bulk,\ndescription: $description,\nusage_requirements: $usage_requirements,\nvalue: $value,\neffect: $effect\n}) RETURN item.uuid as uuid",
    );
    let name = crate::items::text_or(fields.name, "Unnamed Item");
    let activation_cost = crate::items::text_or(fields.activation_cost, "");
    let description = crate::items::text_or(fields.description, "");
    let usage_requirements = crate::items::text_or(fields.usage_requirements, "");
    let value = u64_to_string(
        match fields.value {
            Some(v) => v,
            None => 0,
        },
    );
    let effect = crate::items::text_or(fields.effect, "");
    q = crate::store::with_str_param(q, "name", name.as_str());
    q = crate::store::with_str_param(q, "activation_cost", activation_cost.as_str());
    q = crate::store::with_str_param(q, "description", description.as_str());
    q = crate::store::with_str_param(q, "usage_requirements", usage_requirements.as_str());
    q = crate::store::with_str_param(q, "value", value.as_str());
    q = crate::store::with_str_param(q, "effect", effect.as_str());
    q = crate::store::with_int_param(
        q,
        "level",
        match fields.level {
            Some(l) => l as i64,
            None => 0,
        },
    );
    proof {
        reveal_strlit("name");
        reveal_strlit("activation_cost");
        reveal_strlit("description");
        reveal_strlit("usage_requirements");
        reveal_strlit("value");
        reveal_strlit("effect");
        reveal_strlit("level");
        assert("name"@.len() == 4 && "activation_cost"@.len() == 15 && "description"@.len() == 11
            && "usage_requirements"@.len() == 18 && "value"@.len() == 5 && "effect"@.len() == 6
            && "level"@.len() == 5);
        assert("value"@[0] == 'v' && "level"@[0] == 'l');
        assert("value"@ != "level"@);
        assert(query_str_params(q) =~= spec_item_create_str_params(fields));
        assert(query_int_params(q) =~= empty_int_params().insert(
            "level"@,
            match fields.level {
                Some(l) => l as int,
                None => 0,
            },
        ));
    }
    q
}

} // verus!
