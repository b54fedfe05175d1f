use vstd::prelude::*;
use vstd::string::*;
use crate::text::{append_decimal, join, replace_marker, spec_decimal, spec_join, spec_replace};

verus! {

/// The mathematical image of a query filter: an optional free-text search
/// term and optional lists of trait names to require or to rule out.
pub struct FilterView {
    pub search_value: Option<Seq<char>>,
    pub included_traits: Option<Seq<Seq<char>>>,
    pub excluded_traits: Option<Seq<Seq<char>>>,
}

/// The case-insensitive substring condition on the display name.  The
/// search term itself travels only as the bound parameter `search_value`.
pub open spec fn spec_search_condition() -> Seq<char> {
    "toLower(item.name) CONTAINS toLower($search_value)"@
}

/// The name of the bound parameter for the i-th required trait.
pub open spec fn spec_include_param_name(i: int) -> Seq<char> {
    "it"@ + spec_decimal(i)
}

/// The name of the bound parameter for the i-th excluded trait.
pub open spec fn spec_exclude_param_name(i: int) -> Seq<char> {
    "et"@ + spec_decimal(i)
}

/// The existence condition for the i-th required trait.  Only the
/// index-suffixed parameter placeholder appears in the text.
pub open spec fn spec_include_condition(i: int) -> Seq<char> {
    "(item)-[:HAS_TRAIT]->(:Trait{name: $it"@ + spec_decimal(i) + "})"@
}

/// The negated existence condition for the i-th excluded trait.
pub open spec fn spec_exclude_condition(i: int) -> Seq<char> {
    "NOT (item)-[:HAS_TRAIT]->(:Trait{name: $et"@ + spec_decimal(i) + "})"@
}

/// The condition fragments a search term contributes.  An absent or
/// empty term contributes none.
pub open spec fn spec_search_conds(s: Option<Seq<char>>) -> Seq<Seq<char>> {
    match s {
        Some(t) => if t.len() > 0 {
            seq![spec_search_condition()]
        } else {
            Seq::empty()
        },
        None => Seq::empty(),
    }
}

/// The parameter bindings a search term contributes.
pub open spec fn spec_search_params(s: Option<Seq<char>>) -> Seq<(Seq<char>, Seq<char>)> {
    match s {
        Some(t) => if t.len() > 0 {
            seq![("search_value"@, t)]
        } else {
            Seq::empty()
        },
        None => Seq::empty(),
    }
}

/// The condition fragments the required traits contribute, one per trait.
pub open spec fn spec_include_conds(ts: Option<Seq<Seq<char>>>) -> Seq<Seq<char>> {
    match ts {
        Some(t) => Seq::new(t.len(), |i: int| spec_include_condition(i)),
        None => Seq::empty(),
    }
}

/// The parameter bindings the required traits contribute: one uniquely
/// named binding per trait, then the comma-joined list under its own name.
pub open spec fn spec_include_params(ts: Option<Seq<Seq<char>>>) -> Seq<(Seq<char>, Seq<char>)> {
    match ts {
        Some(t) => Seq::new(t.len(), |i: int| (spec_include_param_name(i), t[i])) + seq![
            ("included_traits"@, spec_join(t, ","@)),
        ],
        None => Seq::empty(),
    }
}

/// The condition fragments the excluded traits contribute.
pub open spec fn spec_exclude_conds(ts: Option<Seq<Seq<char>>>) -> Seq<Seq<char>> {
    match ts {
        Some(t) => Seq::new(t.len(), |i: int| spec_exclude_condition(i)),
        None => Seq::empty(),
    }
}

/// The parameter bindings the excluded traits contribute.
pub open spec fn spec_exclude_params(ts: Option<Seq<Seq<char>>>) -> Seq<(Seq<char>, Seq<char>)> {
    match ts {
        Some(t) => Seq::new(t.len(), |i: int| (spec_exclude_param_name(i), t[i])),
        None => Seq::empty(),
    }
}

/// The ordered condition fragments the filter compiles to: the search
/// condition first, then one condition per required trait, then one per
/// excluded trait.
pub open spec fn spec_conditions(f: FilterView) -> Seq<Seq<char>> {
    spec_search_conds(f.search_value) + spec_include_conds(f.included_traits)
        + spec_exclude_conds(f.excluded_traits)
}

/// The ordered parameter bindings the filter compiles to.  Every
/// client-supplied string reaches the query only through this list.
pub open spec fn spec_params(f: FilterView) -> Seq<(Seq<char>, Seq<char>)> {
    spec_search_params(f.search_value) + spec_include_params(f.included_traits)
        + spec_exclude_params(f.excluded_traits)
}

/// The filter clause that replaces the insertion marker: empty when no
/// condition was produced, otherwise `WHERE` followed by the conditions
/// joined with `AND`.
pub open spec fn spec_clause(f: FilterView) -> Seq<char> {
    if spec_conditions(f).len() == 0 {
        Seq::empty()
    } else {
        "WHERE "@ + spec_join(spec_conditions(f), " AND "@)
    }
}

/// The final query text: the template with its insertion marker replaced
/// by the compiled clause.
pub open spec fn spec_compiled_text(f: FilterView, base: Seq<char>) -> Seq<char> {
    spec_replace(base, "<FILTER>"@, spec_clause(f))
}

/// The views of an ordered list of name/value parameter bindings.
pub open spec fn pairs_view(v: Seq<(String, String)>) -> Seq<(Seq<char>, Seq<char>)> {
    v.map_values(|p: (String, String)| (p.0@, p.1@))
}

/// The views of an ordered list of condition strings.
pub open spec fn conds_view(v: Seq<String>) -> Seq<Seq<char>> {
    v.map_values(|p: String| p@)
}

/// The view a filter struct shares with its compilation contract.
pub open spec fn filter_view_of(
    search_value: Option<String>,
    included_traits: Option<Vec<String>>,
    excluded_traits: Option<Vec<String>>,
) -> FilterView {
    FilterView {
        search_value: search_value.deep_view(),
        included_traits: included_traits.deep_view(),
        excluded_traits: excluded_traits.deep_view(),
    }
}

/// Adds the search condition and its binding when a non-empty term is
/// present.
fn add_search(
    conditions: &mut Vec<String>,
    params: &mut Vec<(String, String)>,
    search_value: &Option<String>,
)
    ensures
        conds_view(final(conditions)@) == conds_view(old(conditions)@) + spec_search_conds(
            search_value.deep_view(),
        ),
        pairs_view(final(params)@) == pairs_view(old(params)@) + spec_search_params(
            search_value.deep_view(),
        ),
{
    let ghost pre_conds = conds_view(conditions@);
    let ghost pre_params = pairs_view(params@);
    match search_value {
        Some(sv) => {
            if !sv.as_str().is_empty() {
                conditions.push("toLower(item.name) CONTAINS toLower($search_value)".to_owned());
                params.push(("search_value".to_owned(), sv.clone()));
                proof {
                    assert(conds_view(conditions@) =~= pre_conds + spec_search_conds(
                        search_value.deep_view(),
                    ));
                    assert(pairs_view(params@) =~= pre_params + spec_search_params(
                        search_value.deep_view(),
                    ));
                }
            } else {
                proof {
                    assert(conds_view(conditions@) =~= pre_conds + spec_search_conds(
                        search_value.deep_view(),
                    ));
                    assert(pairs_view(params@) =~= pre_params + spec_search_params(
                        search_value.deep_view(),
                    ));
                }
            }
        },
        None => {
            proof {
                assert(conds_view(conditions@) =~= pre_conds + spec_search_conds(
                    search_value.deep_view(),
                ));
                assert(pairs_view(params@) =~= pre_params + spec_search_params(
                    search_value.deep_view(),
                ));
            }
        },
    }
}

/// Adds one existence condition and one index-suffixed binding per
/// required trait, then the comma-joined trait list under its own name.
fn add_included(
    conditions: &mut Vec<String>,
    params: &mut Vec<(String, String)>,
    included_traits: &Option<Vec<String>>,
)
    ensures
        conds_view(final(conditions)@) == conds_view(old(conditions)@) + spec_include_conds(
            included_traits.deep_view(),
        ),
        pairs_view(final(params)@) == pairs_view(old(params)@) + spec_include_params(
            included_traits.deep_view(),
        ),
{
    let ghost pre_conds = conds_view(conditions@);
    let ghost pre_params = pairs_view(params@);
    match included_traits {
        Some(ts) => {
            let ghost tsv = ts.deep_view();
            let mut i: usize = 0;
            while i < ts.len()
                invariant
                    i <= ts@.len(),
                    tsv == ts.deep_view(),
                    tsv.len() == ts@.len(),
                    conds_view(conditions@) == pre_conds + Seq::new(
                        i as nat,
                        |k: int| spec_include_condition(k),
                    ),
                    pairs_view(params@) == pre_params + Seq::new(
                        i as nat,
                        |k: int| (spec_include_param_name(k), tsv[k]),
                    ),
                decreases ts@.len() - i,
            {
                let ghost cur_conds = conds_view(conditions@);
                let ghost cur_params = pairs_view(params@);
                let mut cond = "(item)-[:HAS_TRAIT]->(:Trait{name: $it".to_owned();
                append_decimal(&mut cond, i as u64);
                cond.append("})");
                let ghost condv = cond@;
                proof {
                    assert(condv =~= spec_include_condition(i as int));
                }
                conditions.push(cond);
                let mut pname = "it".to_owned();
                append_decimal(&mut pname, i as u64);
                let ghost pnamev = pname@;
                proof {
                    assert(pnamev =~= spec_include_param_name(i as int));
                }
                let pvalue = ts[i].clone();
                let ghost pvaluev = pvalue@;
                proof {
                    assert(pvaluev == tsv[i as int]);
                }
                params.push((pname, pvalue));
                i = i + 1;
                proof {
                    assert(conds_view(conditions@) =~= cur_conds.push(condv));
                    assert(cur_conds.push(condv) =~= pre_conds + Seq::new(
                        i as nat,
                        |k: int| spec_include_condition(k),
                    ));
                    assert(pairs_view(params@) =~= cur_params.push((pnamev, pvaluev)));
                    assert(cur_params.push((pnamev, pvaluev)) =~= pre_params + Seq::new(
                        i as nat,
                        |k: int| (spec_include_param_name(k), tsv[k]),
                    ));
                }
            }
            let ghost cur_params = pairs_view(params@);
            let joined = join(ts, ",");
            let ghost joinedv = joined@;
            proof {
                assert(ts@.map_values(|p: String| p@) =~= tsv);
                assert(joinedv == spec_join(tsv, ","@));
            }
            params.push(("included_traits".to_owned(), joined));
            proof {
                assert(conds_view(conditions@) =~= pre_conds + spec_include_conds(
                    included_traits.deep_view(),
                ));
                assert(pairs_view(params@) =~= cur_params.push(("included_traits"@, joinedv)));
                assert(cur_params.push(("included_traits"@, joinedv)) =~= pre_params
                    + spec_include_params(included_traits.deep_view()));
            }
        },
        None => {
            proof {
                assert(conds_view(conditions@) =~= pre_conds + spec_include_conds(
                    included_traits.deep_view(),
                ));
                assert(pairs_view(params@) =~= pre_params + spec_include_params(
                    included_traits.deep_view(),
                ));
            }
        },
    }
}

/// Adds one negated existence condition and one index-suffixed binding
/// per excluded trait.
fn add_excluded(
    conditions: &mut Vec<String>,
    params: &mut Vec<(String, String)>,
    excluded_traits: &Option<Vec<String>>,
)
    ensures
        conds_view(final(conditions)@) == conds_view(old(conditions)@) + spec_exclude_conds(
            excluded_traits.deep_view(),
        ),
        pairs_view(final(params)@) == pairs_view(old(params)@) + spec_exclude_params(
            excluded_traits.deep_view(),
        ),
{
    let ghost pre_conds = conds_view(conditions@);
    let ghost pre_params = pairs_view(params@);
    match excluded_traits {
        Some(ts) => {
            let ghost tsv = ts.deep_view();
            let mut i: usize = 0;
            while i < ts.len()
                invariant
                    i <= ts@.len(),
                    tsv == ts.deep_view(),
                    tsv.len() == ts@.len(),
                    conds_view(conditions@) == pre_conds + Seq::new(
                        i as nat,
                        |k: int| spec_exclude_condition(k),
                    ),
                    pairs_view(params@) == pre_params + Seq::new(
                        i as nat,
                        |k: int| (spec_exclude_param_name(k), tsv[k]),
                    ),
                decreases ts@.len() - i,
            {
                let ghost cur_conds = conds_view(conditions@);
                let ghost cur_params = pairs_view(params@);
                let mut cond = "NOT (item)-[:HAS_TRAIT]->(:Trait{name: $et".to_owned();
                append_decimal(&mut cond, i as u64);
                cond.append("})");
                let ghost condv = cond@;
                proof {
                    assert(condv =~= spec_exclude_condition(i as int));
                }
                conditions.push(cond);
                let mut pname = "et".to_owned();
                append_decimal(&mut pname, i as u64);
                let ghost pnamev = pname@;
                proof {
                    assert(pnamev =~= spec_exclude_param_name(i as int));
                }
                let pvalue = ts[i].clone();
                let ghost pvaluev = pvalue@;
                proof {
                    assert(pvaluev == tsv[i as int]);
                }
                params.push((pname, pvalue));
                i = i + 1;
                proof {
                    assert(conds_view(conditions@) =~= cur_conds.push(condv));
                    assert(cur_conds.push(condv) =~= pre_conds + Seq::new(
                        i as nat,
                        |k: int| spec_exclude_condition(k),
                    ));
                    assert(pairs_view(params@) =~= cur_params.push((pnamev, pvaluev)));
                    assert(cur_params.push((pnamev, pvaluev)) =~= pre_params + Seq::new(
                        i as nat,
                        |k: int| (spec_exclude_param_name(k), tsv[k]),
                    ));
                }
            }
        },
        None => {
            proof {
                assert(conds_view(conditions@) =~= pre_conds + spec_exclude_conds(
                    excluded_traits.deep_view(),
                ));
                assert(pairs_view(params@) =~= pre_params + spec_exclude_params(
                    excluded_traits.deep_view(),
                ));
            }
        },
    }
}

/// Compiles a filter against a query template: the template's `<FILTER>`
/// marker becomes the condition clause, and every client-supplied string
/// becomes a bound parameter, never part of the text.
fn compile_filter(
    search_value: &Option<String>,
    included_traits: &Option<Vec<String>>,
    excluded_traits: &Option<Vec<String>>,
    base_query: &str,
) -> (r: (String, Vec<(String, String)>))
    ensures
        ({
            let f = filter_view_of(*search_value, *included_traits, *excluded_traits);
            &&& r.0@ == spec_compiled_text(f, base_query@)
            &&& pairs_view(r.1@) == spec_params(f)
        }),
{
    let ghost f = filter_view_of(*search_value, *included_traits, *excluded_traits);
    let mut conditions: Vec<String> = Vec::new();
    let mut params: Vec<(String, String)> = Vec::new();
    proof {
        assert(conds_view(conditions@) =~= Seq::<Seq<char>>::empty());
        assert(pairs_view(params@) =~= Seq::<(Seq<char>, Seq<char>)>::empty());
    }
    add_search(&mut conditions, &mut params, search_value);
    add_included(&mut conditions, &mut params, included_traits);
    add_excluded(&mut conditions, &mut params, excluded_traits);
    proof {
        assert(conds_view(conditions@) =~= spec_conditions(f));
        assert(pairs_view(params@) =~= spec_params(f));
    }

    let clause: String = if conditions.len() == 0 {
        String::new()
    } else {
        let joined = join(&conditions, " AND ");
        let mut c = "WHERE ".to_owned();
        c.append(joined.as_str());
        c
    };
    proof {
        assert(conditions@.map_values(|p: String| p@) == conds_view(conditions@));
        assert(clause@ == spec_clause(f));
        reveal_strlit("<FILTER>");
    }
    let text = replace_marker(base_query, "<FILTER>", clause.as_str());
    (text, params)
}

/// A client-supplied filter over the item catalogue: an optional
/// free-text search on the display name and optional lists of trait
/// names to require or to rule out.
#[derive(Clone, Debug)]
pub struct ItemQueryFilter {
    pub search_value: Option<String>,
    pub included_traits: Option<Vec<String>>,
    pub excluded_traits: Option<Vec<String>>,
}

impl View for ItemQueryFilter {
    type V = FilterView;

    open spec fn view(&self) -> FilterView {
        filter_view_of(self.search_value, self.included_traits, self.excluded_traits)
    }
}

impl ItemQueryFilter {
    /// Compiles the filter into the template's `<FILTER>` marker.  The
    /// returned text holds only fixed fragments and parameter
    /// placeholders; every client-supplied string is returned separately
    /// as a bound parameter.
    pub fn to_cypher_query(&self, base_query: &str) -> (r: (String, Vec<(String, String)>))
        ensures
            r.0@ == spec_compiled_text(self@, base_query@),
            pairs_view(r.1@) == spec_params(self@),
    {
        compile_filter(
            &self.search_value,
            &self.included_traits,
            &self.excluded_traits,
            base_query,
        )
    }
}

/// A client-supplied filter over one inventory's contents.  It carries
/// the same shape as the item filter and compiles identically.
#[derive(Clone, Debug)]
pub struct InventoryItemQueryFilter {
    pub search_value: Option<String>,
    pub included_traits: Option<Vec<String>>,
    pub excluded_traits: Option<Vec<String>>,
}

impl View for InventoryItemQueryFilter {
    type V = FilterView;

    open spec fn view(&self) -> FilterView {
        filter_view_of(self.search_value, self.included_traits, self.excluded_traits)
    }
}

impl InventoryItemQueryFilter {
    /// Compiles the filter into the template's `<FILTER>` marker, with
    /// the same guarantees as the item filter's compilation.
    pub fn to_cypher_query(&self, base_query: &str) -> (r: (String, Vec<(String, String)>))
        ensures
            r.0@ == spec_compiled_text(self@, base_query@),
            pairs_view(r.1@) == spec_params(self@),
    {
        compile_filter(
            &self.search_value,
            &self.included_traits,
            &self.excluded_traits,
            base_query,
        )
    }
}

/// A filter with no search term and no trait lists — or with an empty
/// term and empty lists — compiles to no condition at all: the insertion
/// marker resolves to the empty clause.
pub proof fn lemma_empty_filter_no_clause(f: FilterView, base: Seq<char>)
    requires
        match f.search_value {
            Some(s) => s.len() == 0,
            None => true,
        },
        match f.included_traits {
            Some(ts) => ts.len() == 0,
            None => true,
        },
        match f.excluded_traits {
            Some(ts) => ts.len() == 0,
            None => true,
        },
    ensures
        spec_conditions(f).len() == 0,
        spec_clause(f) == Seq::<char>::empty(),
        spec_compiled_text(f, base) == spec_replace(base, "<FILTER>"@, Seq::<char>::empty()),
{
}

/// The bound parameters of distinct required traits carry distinct
/// names: the i-th and j-th trait bind under different index-suffixed
/// parameter names, each to its own trait string.
pub proof fn lemma_included_param_names_distinct(f: FilterView, ts: Seq<Seq<char>>, i: int, j: int)
    requires
        f.included_traits == Some(ts),
        0 <= i < ts.len(),
        0 <= j < ts.len(),
        i != j,
    ensures
        ({
            let ps = spec_params(f);
            let base = spec_search_params(f.search_value).len() as int;
            &&& ps[base + i] == (spec_include_param_name(i), ts[i])
            &&& ps[base + j] == (spec_include_param_name(j), ts[j])
            &&& spec_include_param_name(i) != spec_include_param_name(j)
        }),
{
    let ps = spec_params(f);
    let base = spec_search_params(f.search_value).len() as int;
    assert(ps[base + i] == (spec_include_param_name(i), ts[i]));
    assert(ps[base + j] == (spec_include_param_name(j), ts[j]));
    crate::text::lemma_decimal_injective(i, j);
    crate::text::lemma_decimal_len_pos(i);
    crate::text::lemma_decimal_len_pos(j);
    reveal_strlit("it");
    assert("it"@.len() == 2);
    if spec_decimal(i).len() == spec_decimal(j).len() {
        if spec_include_param_name(i) == spec_include_param_name(j) {
            assert(forall|k: int|
                0 <= k < spec_decimal(i).len() ==> spec_decimal(i)[k] == spec_include_param_name(
                    i,
                )[2 + k] && spec_decimal(j)[k] == spec_include_param_name(j)[2 + k]);
            assert(spec_decimal(i) =~= spec_decimal(j));
        }
    } else {
        assert(spec_include_param_name(i).len() != spec_include_param_name(j).len());
    }
}

/// A filter with exactly the two required traits `a` and `b` binds them
/// under two distinct parameter names, one to `a` and one to `b`.
pub proof fn lemma_two_included_traits(f: FilterView, a: Seq<char>, b: Seq<char>)
    requires
        f.included_traits == Some(seq![a, b]),
    ensures
        ({
            let ps = spec_params(f);
            exists|i: int, j: int|
                0 <= i < ps.len() && 0 <= j < ps.len() && i != j && ps[i].1 == a && ps[j].1 == b
                    && ps[i].0 != ps[j].0
        }),
{
    let ts: Seq<Seq<char>> = seq![a, b];
    lemma_included_param_names_distinct(f, ts, 0, 1);
    let ps = spec_params(f);
    let base = spec_search_params(f.search_value).len() as int;
    assert(0 <= base + 0 < ps.len() && 0 <= base + 1 < ps.len());
    assert(ps[base + 0].1 == a && ps[base + 1].1 == b && ps[base + 0].0 != ps[base + 1].0);
}

/// The compiled text depends only on the filter's shape — whether a
/// search term is present and how many traits are required or ruled
/// out — never on the client-supplied strings themselves.  Two filters
/// of the same shape compile to the same text against any template:
/// client text cannot reach or alter the query text, only the bound
/// parameters.
pub proof fn lemma_text_depends_only_on_shape(f: FilterView, g: FilterView, base: Seq<char>)
    requires
        (match f.search_value {
            Some(s) => s.len() > 0,
            None => false,
        }) == (match g.search_value {
            Some(s) => s.len() > 0,
            None => false,
        }),
        f.included_traits is Some <==> g.included_traits is Some,
        (match f.included_traits {
            Some(ts) => ts.len(),
            None => 0,
        }) == (match g.included_traits {
            Some(ts) => ts.len(),
            None => 0,
        }),
        f.excluded_traits is Some <==> g.excluded_traits is Some,
        (match f.excluded_traits {
            Some(ts) => ts.len(),
            None => 0,
        }) == (match g.excluded_traits {
            Some(ts) => ts.len(),
            None => 0,
        }),
    ensures
        spec_conditions(f) == spec_conditions(g),
        spec_clause(f) == spec_clause(g),
        spec_compiled_text(f, base) == spec_compiled_text(g, base),
{
    assert(spec_search_conds(f.search_value) =~= spec_search_conds(g.search_value));
    assert(spec_include_conds(f.included_traits) =~= spec_include_conds(g.included_traits));
    assert(spec_exclude_conds(f.excluded_traits) =~= spec_exclude_conds(g.excluded_traits));
}

/// Compilation is deterministic: any two results that meet the
/// compilation contract for the same filter and the same template are
/// identical, in text, in condition list and in parameter bindings.
pub proof fn lemma_compilation_deterministic(
    f: FilterView,
    base: Seq<char>,
    text1: Seq<char>,
    params1: Seq<(Seq<char>, Seq<char>)>,
    text2: Seq<char>,
    params2: Seq<(Seq<char>, Seq<char>)>,
)
    requires
        text1 == spec_compiled_text(f, base),
        params1 == spec_params(f),
        text2 == spec_compiled_text(f, base),
        params2 == spec_params(f),
    ensures
        text1 == text2,
        params1 == params2,
{
}

} // verus!
