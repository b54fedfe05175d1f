use vstd::prelude::*;
use vstd::string::*;
use crate::text::str_eq;

verus! {

/// A trait of an item: its name and an optional description.
#[derive(Clone, Debug)]
pub struct Trait {
    pub name: String,
    pub description: Option<String>,
}

/// The whitelist of sort keys for the item catalogue.  Unknown input
/// falls back to the default field `name`; this is a total function and
/// never an error.  The client's sort key itself never reaches the query
/// text: only the fixed right-hand sides below do.
pub open spec fn spec_map_sort_field(field: Seq<char>) -> Seq<char> {
    if field == "name"@ {
        "name"@
    } else if field == "value"@ {
        "numeric_value"@
    } else if field == "level"@ {
        "level"@
    } else if field == "bulk"@ {
        "bulk"@
    } else {
        "name"@
    }
}

/// Resolves a client sort key for the item catalogue to a safe internal
/// field identifier.
pub fn map_sort_field(field: &str) -> (r: &'static str)
    ensures
        r@ == spec_map_sort_field(field@),
{
    if str_eq(field, "name") {
        "name"
    } else if str_eq(field, "value") {
        "numeric_value"
    } else if str_eq(field, "level") {
        "level"
    } else if str_eq(field, "bulk") {
        "bulk"
    } else {
        "name"
    }
}

/// Whether a trait list marks an item as consumable.
pub open spec fn spec_is_consumable(traits: Option<Seq<Seq<char>>>) -> bool {
    match traits {
        Some(ts) => ts.contains("Consumable"@),
        None => false,
    }
}

/// An item is consumable exactly when its trait list carries the
/// `Consumable` trait; an absent list means not consumable.
pub fn is_consumable(traits: &Option<Vec<String>>) -> (r: bool)
    ensures
        r == spec_is_consumable(traits.deep_view()),
{
    match traits {
        Some(ts) => {
            let ghost tsv = ts.deep_view();
            let mut i: usize = 0;
            while i < ts.len()
                invariant
                    i <= ts@.len(),
                    tsv == ts.deep_view(),
                    tsv.len() == ts@.len(),
                    traits.deep_view() == Some(tsv),
                    forall|j: int| 0 <= j < i ==> tsv[j] != "Consumable"@,
                decreases ts@.len() - i,
            {
                if str_eq(ts[i].as_str(), "Consumable") {
                    proof {
                        assert(traits.deep_view() == Some(tsv));
                        assert(tsv[i as int] == ts@[i as int]@);
                        assert(tsv.contains("Consumable"@));
                    }
                    return true;
                }
                proof {
                    assert(tsv[i as int] == ts@[i as int]@);
                }
                i = i + 1;
            }
            proof {
                assert(!tsv.contains("Consumable"@));
            }
            false
        },
        None => false,
    }
}

/// Whether a character is a decimal digit.
pub open spec fn spec_is_digit(c: char) -> bool {
    '0' <= c && c <= '9'
}

/// The numeric value of a decimal digit character.
pub open spec fn spec_digit_value(c: char) -> int {
    c as int - '0' as int
}

/// Whether a string consists only of decimal digits.
pub open spec fn spec_all_digits(s: Seq<char>) -> bool {
    forall|i: int| 0 <= i < s.len() ==> spec_is_digit(#[trigger] s[i])
}

/// The unsigned value a digit string denotes, most significant first.
pub open spec fn spec_digits_value(s: Seq<char>) -> int
    decreases s.len(),
{
    if s.len() == 0 {
        0
    } else {
        spec_digits_value(s.drop_last()) * 10 + spec_digit_value(s.last())
    }
}

/// A digit string never denotes a negative value.
proof fn lemma_digits_value_nonneg(s: Seq<char>)
    requires
        spec_all_digits(s),
    ensures
        spec_digits_value(s) >= 0,
    decreases s.len(),
{
    if s.len() > 0 {
        assert(spec_all_digits(s.drop_last()));
        lemma_digits_value_nonneg(s.drop_last());
    }
}

/// A digit-string prefix never denotes more than the whole string.
proof fn lemma_digits_value_prefix(s: Seq<char>, j: int)
    requires
        spec_all_digits(s),
        0 <= j <= s.len(),
    ensures
        spec_digits_value(s) >= spec_digits_value(s.take(j)),
    decreases s.len() - j,
{
    if j == s.len() {
        assert(s.take(j) =~= s);
    } else {
        assert(s.take(j + 1).drop_last() =~= s.take(j));
        assert(spec_all_digits(s.take(j)));
        lemma_digits_value_nonneg(s.take(j));
        assert(spec_digits_value(s.take(j + 1)) == spec_digits_value(s.take(j)) * 10
            + spec_digit_value(s[j]));
        assert(spec_digits_value(s.take(j)) * 10 >= spec_digits_value(s.take(j))) by (nonlinear_arith)
            requires
                spec_digits_value(s.take(j)) >= 0,
        ;
        lemma_digits_value_prefix(s, j + 1);
    }
}

/// Parses an unsigned decimal integer.  The result exists exactly when
/// the string is non-empty, holds only digits, and denotes a value in
/// the `u64` range.
pub fn parse_u64(s: &str) -> (r: Option<u64>)
    ensures
        match r {
            Some(v) => {
                &&& s@.len() > 0
                &&& spec_all_digits(s@)
                &&& v == spec_digits_value(s@)
            },
            None => s@.len() == 0 || !spec_all_digits(s@) || spec_digits_value(s@) > u64::MAX,
        },
{
    let n = s.unicode_len();
    if n == 0 {
        return None;
    }
    let mut acc: u64 = 0;
    let mut i: usize = 0;
    proof {
        assert(s@.take(0) =~= Seq::<char>::empty());
    }
    while i < n
        invariant
            i <= n,
            n == s@.len(),
            spec_all_digits(s@.take(i as int)),
            acc == spec_digits_value(s@.take(i as int)),
        decreases n - i,
    {
        let c = s.get_char(i);
        if !(c >= '0' && c <= '9') {
            proof {
                assert(!spec_is_digit(s@[i as int]));
                assert(!spec_all_digits(s@));
            }
            return None;
        }
        let d: u64 = (c as u32 - '0' as u32) as u64;
        proof {
            assert(s@.take(i as int + 1).drop_last() =~= s@.take(i as int));
            assert(s@.take(i as int + 1).last() == s@[i as int]);
            assert(spec_all_digits(s@.take(i as int + 1)));
        }
        if acc > (u64::MAX - d) / 10 {
            proof {
                assert(acc * 10 + d > u64::MAX) by (nonlinear_arith)
                    requires
                        acc > (u64::MAX as int - d) / 10,
                        0 <= d <= 9,
                ;
                if spec_all_digits(s@) {
                    lemma_digits_value_prefix(s@, i as int + 1);
                }
            }
            return None;
        }
        proof {
            assert(acc * 10 + d <= u64::MAX) by (nonlinear_arith)
                requires
                    acc <= (u64::MAX as int - d) / 10,
                    0 <= d <= 9,
            ;
        }
        acc = acc * 10 + d;
        i = i + 1;
    }
    proof {
        assert(s@.take(n as int) =~= s@);
    }
    Some(acc)
}

/// The value a stored text field denotes: a parseable digit string gives
/// its value, anything else — absence, an empty string, stray
/// characters, or a value beyond range — gives zero.
pub open spec fn spec_value_or_zero(v: Option<Seq<char>>) -> int {
    match v {
        Some(s) => if s.len() > 0 && spec_all_digits(s) && spec_digits_value(s) <= u64::MAX {
            spec_digits_value(s)
        } else {
            0
        },
        None => 0,
    }
}

/// Decodes a stored item value: the store keeps values as text, and a
/// missing or unparseable value counts as zero.
pub fn decode_item_value(raw: &Option<String>) -> (v: u64)
    ensures
        v == spec_value_or_zero(raw.deep_view()),
{
    match raw {
        Some(s) => match parse_u64(s.as_str()) {
            Some(v) => v,
            None => 0,
        },
        None => 0,
    }
}

/// One item row as the store hands it over: the identity and name are
/// required, everything else may be absent.
#[derive(Clone, Debug)]
pub struct ItemRowData {
    pub uuid: String,
    pub name: String,
    pub level: Option<u16>,
    pub value: Option<String>,
    pub traits: Option<Vec<String>>,
    pub description: Option<String>,
    pub effect: Option<String>,
    pub activation_cost: Option<String>,
    pub usage_requirements: Option<String>,
}

/// One fully decoded item: every field present, with the documented
/// default filled in wherever the store had nothing.
#[derive(Clone, Debug)]
pub struct ItemRecord {
    pub uuid: String,
    pub name: String,
    pub level: u16,
    pub value: u64,
    pub traits: Vec<String>,
    pub description: String,
    pub effect: String,
    pub activation_cost: String,
    pub usage_requirements: String,
}

/// A present text field keeps its view; an absent one takes the default.
pub open spec fn spec_text_or(v: Option<Seq<char>>, default: Seq<char>) -> Seq<char> {
    match v {
        Some(s) => s,
        None => default,
    }
}

/// Fills one optional text field with its default.
pub fn text_or(raw: Option<String>, default: &str) -> (r: String)
    ensures
        r@ == spec_text_or(raw.deep_view(), default@),
{
    match raw {
        Some(s) => s,
        None => default.to_owned(),
    }
}

/// Decodes one raw item row into a complete record, at one call site
/// with one defaults policy: level `0`, value zero, no traits, and the
/// fixed placeholder texts for the descriptive fields.
pub fn decode_item_row(raw: ItemRowData) -> (r: ItemRecord)
    ensures
        r.uuid == raw.uuid,
        r.name == raw.name,
        r.level as int == (match raw.level {
            Some(l) => l as int,
            None => 0,
        }),
        r.value == spec_value_or_zero(raw.value.deep_view()),
        r.traits@ == (match raw.traits {
            Some(ts) => ts@,
            None => Seq::<String>::empty(),
        }),
        r.description@ == spec_text_or(raw.description.deep_view(), "No description"@),
        r.effect@ == spec_text_or(raw.effect.deep_view(), "No effect"@),
        r.activation_cost@ == spec_text_or(raw.activation_cost.deep_view(), "n/a"@),
        r.usage_requirements@ == spec_text_or(raw.usage_requirements.deep_view(), "Not usable"@),
{
    let value = decode_item_value(&raw.value);
    ItemRecord {
        uuid: raw.uuid,
        name: raw.name,
        level: match raw.level {
            Some(l) => l,
            None => 0,
        },
        value,
        traits: match raw.traits {
            Some(ts) => ts,
            None => Vec::new(),
        },
        description: text_or(raw.description, "No description"),
        effect: text_or(raw.effect, "No effect"),
        activation_cost: text_or(raw.activation_cost, "n/a"),
        usage_requirements: text_or(raw.usage_requirements, "Not usable"),
    }
}

} // verus!
