use vstd::prelude::*;
use vstd::string::*;

verus! {

/// Character-by-character string equality, decided without any trusted
/// comparison: two views are equal exactly when the result is true.
pub fn str_eq(a: &str, b: &str) -> (r: bool)
    ensures
        r == (a@ == b@),
{
    let alen = a.unicode_len();
    let blen = b.unicode_len();
    if alen != blen {
        return false;
    }
    let mut i: usize = 0;
    while i < alen
        invariant
            i <= alen,
            alen == a@.len(),
            blen == b@.len(),
            alen == blen,
            forall|j: int| 0 <= j < i ==> a@[j] == b@[j],
        decreases alen - i,
    {
        if a.get_char(i) != b.get_char(i) {
            return false;
        }
        i = i + 1;
    }
    proof {
        assert(a@ =~= b@);
    }
    true
}

/// The character for one decimal digit.
pub open spec fn spec_digit(d: int) -> char
    recommends
        0 <= d < 10,
{
    if d == 0 {
        '0'
    } else if d == 1 {
        '1'
    } else if d == 2 {
        '2'
    } else if d == 3 {
        '3'
    } else if d == 4 {
        '4'
    } else if d == 5 {
        '5'
    } else if d == 6 {
        '6'
    } else if d == 7 {
        '7'
    } else if d == 8 {
        '8'
    } else {
        '9'
    }
}

/// The usual decimal rendering of a non-negative integer, without leading
/// zeros except for the number zero itself.
pub open spec fn spec_decimal(n: int) -> Seq<char>
    recommends
        n >= 0,
    decreases n,
{
    if n < 10 {
        seq![spec_digit(n)]
    } else {
        spec_decimal(n / 10).push(spec_digit(n % 10))
    }
}

/// Every decimal rendering has at least one character.
pub proof fn lemma_decimal_len_pos(n: int)
    requires
        n >= 0,
    ensures
        spec_decimal(n).len() >= 1,
{
}

/// Distinct non-negative integers have distinct decimal renderings.
pub proof fn lemma_decimal_injective(m: int, n: int)
    requires
        0 <= m,
        0 <= n,
        m != n,
    ensures
        spec_decimal(m) != spec_decimal(n),
    decreases m + n,
{
    if m < 10 && n < 10 {
        assert(spec_decimal(m)[0] == spec_digit(m));
        assert(spec_decimal(n)[0] == spec_digit(n));
        assert(spec_digit(m) != spec_digit(n));
    } else if m < 10 {
        lemma_decimal_len_pos(n / 10);
        assert(spec_decimal(n).len() >= 2);
        assert(spec_decimal(m).len() == 1);
    } else if n < 10 {
        lemma_decimal_len_pos(m / 10);
        assert(spec_decimal(m).len() >= 2);
        assert(spec_decimal(n).len() == 1);
    } else {
        if m % 10 != n % 10 {
            assert(spec_decimal(m).last() == spec_digit(m % 10));
            assert(spec_decimal(n).last() == spec_digit(n % 10));
            assert(spec_digit(m % 10) != spec_digit(n % 10));
        } else {
            assert(m / 10 != n / 10);
            lemma_decimal_injective(m / 10, n / 10);
            assert(spec_decimal(m).drop_last() =~= spec_decimal(m / 10));
            assert(spec_decimal(n).drop_last() =~= spec_decimal(n / 10));
        }
    }
}

/// The one-character string for a decimal digit.
pub fn digit_str(d: u64) -> (r: &'static str)
    requires
        d < 10,
    ensures
        r@ == seq![spec_digit(d as int)],
{
    let r: &'static str = match d {
        0 => "0",
        1 => "1",
        2 => "2",
        3 => "3",
        4 => "4",
        5 => "5",
        6 => "6",
        7 => "7",
        8 => "8",
        _ => "9",
    };
    proof {
        reveal_strlit("0");
        reveal_strlit("1");
        reveal_strlit("2");
        reveal_strlit("3");
        reveal_strlit("4");
        reveal_strlit("5");
        reveal_strlit("6");
        reveal_strlit("7");
        reveal_strlit("8");
        reveal_strlit("9");
        assert(r@ =~= seq![spec_digit(d as int)]);
    }
    r
}

/// Appends the decimal rendering of `n` to `s`.
pub fn append_decimal(s: &mut String, n: u64)
    ensures
        final(s)@ == old(s)@ + spec_decimal(n as int),
    decreases n,
{
    if n >= 10 {
        append_decimal(s, n / 10);
        let d = digit_str(n % 10);
        proof {
            assert(spec_decimal(n as int) =~= spec_decimal(n as int / 10) + seq![
                spec_digit(n as int % 10),
            ]);
            assert((old(s)@ + spec_decimal(n as int / 10)) + seq![spec_digit(n as int % 10)] =~= old(
                s,
            )@ + spec_decimal(n as int));
        }
        s.append(d);
    } else {
        let d = digit_str(n);
        s.append(d);
    }
}

/// The decimal rendering of `n` as a fresh string.
pub fn u64_to_string(n: u64) -> (r: String)
    ensures
        r@ == spec_decimal(n as int),
{
    let mut s = String::new();
    append_decimal(&mut s, n);
    proof {
        assert(Seq::<char>::empty() + spec_decimal(n as int) =~= spec_decimal(n as int));
    }
    s
}

/// The parts joined left to right with the separator between neighbours.
pub open spec fn spec_join(parts: Seq<Seq<char>>, sep: Seq<char>) -> Seq<char>
    decreases parts.len(),
{
    if parts.len() == 0 {
        Seq::empty()
    } else if parts.len() == 1 {
        parts[0]
    } else {
        spec_join(parts.drop_last(), sep) + sep + parts.last()
    }
}

/// Joins the parts with the separator between neighbours.
pub fn join(parts: &Vec<String>, sep: &str) -> (r: String)
    ensures
        r@ == spec_join(parts@.map_values(|p: String| p@), sep@),
{
    let ghost full = parts@.map_values(|p: String| p@);
    let mut r = String::new();
    let mut i: usize = 0;
    while i < parts.len()
        invariant
            i <= parts@.len(),
            full == parts@.map_values(|p: String| p@),
            r@ == spec_join(full.take(i as int), sep@),
        decreases parts@.len() - i,
    {
        proof {
            if i == 0 {
                assert(full.take(1)[0] == full[0]);
                assert(Seq::<char>::empty() + full[0 as int] =~= full[0 as int]);
            } else {
                assert(full.take(i as int + 1).drop_last() =~= full.take(i as int));
                assert(full.take(i as int + 1).last() == full[i as int]);
                assert((r@ + sep@) + full[i as int] =~= spec_join(full.take(i as int), sep@) + sep@
                    + full[i as int]);
            }
        }
        if i > 0 {
            r.append(sep);
        }
        r.append(parts[i].as_str());
        i = i + 1;
    }
    proof {
        assert(full.take(parts@.len() as int) =~= full);
    }
    r
}

/// The text with every occurrence of the marker replaced by the filler,
/// scanning left to right without overlap, exactly as a plain text
/// substitution does.  An empty marker replaces nothing.
pub open spec fn spec_replace(s: Seq<char>, marker: Seq<char>, filler: Seq<char>) -> Seq<char>
    decreases s.len(),
{
    if marker.len() == 0 || s.len() < marker.len() {
        s
    } else if s.subrange(0, marker.len() as int) == marker {
        filler + spec_replace(s.skip(marker.len() as int), marker, filler)
    } else {
        seq![s[0]] + spec_replace(s.skip(1), marker, filler)
    }
}

proof fn lemma_replace_match(s: Seq<char>, marker: Seq<char>, filler: Seq<char>, i: int)
    requires
        0 < marker.len(),
        0 <= i,
        i + marker.len() <= s.len(),
        s.subrange(i, i + marker.len()) == marker,
    ensures
        spec_replace(s.skip(i), marker, filler) == filler + spec_replace(
            s.skip(i + marker.len()),
            marker,
            filler,
        ),
{
    let t = s.skip(i);
    assert(t.subrange(0, marker.len() as int) =~= s.subrange(i, i + marker.len()));
    assert(t.skip(marker.len() as int) =~= s.skip(i + marker.len()));
}

proof fn lemma_replace_no_match(s: Seq<char>, marker: Seq<char>, filler: Seq<char>, i: int)
    requires
        0 < marker.len(),
        0 <= i < s.len(),
        i + marker.len() <= s.len() ==> s.subrange(i, i + marker.len()) != marker,
    ensures
        spec_replace(s.skip(i), marker, filler) == seq![s[i]] + spec_replace(
            s.skip(i + 1),
            marker,
            filler,
        ),
{
    let t = s.skip(i);
    if t.len() < marker.len() {
        assert(spec_replace(t, marker, filler) == t);
        assert(s.skip(i + 1).len() < marker.len());
        assert(spec_replace(s.skip(i + 1), marker, filler) == s.skip(i + 1));
        assert(t =~= seq![s[i]] + s.skip(i + 1));
    } else {
        assert(t.subrange(0, marker.len() as int) =~= s.subrange(i, i + marker.len()));
        assert(t[0] == s[i]);
        assert(t.skip(1) =~= s.skip(i + 1));
        assert(seq![t[0]] =~= seq![s[i]]);
    }
}

/// Replaces every occurrence of `marker` in `base` by `filler`, scanning
/// left to right without overlap.
pub fn replace_marker(base: &str, marker: &str, filler: &str) -> (r: String)
    requires
        marker@.len() > 0,
    ensures
        r@ == spec_replace(base@, marker@, filler@),
{
    let n = base.unicode_len();
    let m = marker.unicode_len();
    let mut out = String::new();
    let mut i: usize = 0;
    proof {
        assert(base@.skip(0) =~= base@);
        assert(Seq::<char>::empty() + spec_replace(base@, marker@, filler@) =~= spec_replace(
            base@,
            marker@,
            filler@,
        ));
    }
    while i < n
        invariant
            i <= n,
            n == base@.len(),
            m == marker@.len(),
            m > 0,
            spec_replace(base@, marker@, filler@) == out@ + spec_replace(
                base@.skip(i as int),
                marker@,
                filler@,
            ),
        decreases n - i,
    {
        let matched = if m <= n - i {
            let sub = base.substring_char(i, i + m);
            str_eq(sub, marker)
        } else {
            false
        };
        if matched {
            proof {
                lemma_replace_match(base@, marker@, filler@, i as int);
                assert(out@ + (filler@ + spec_replace(
                    base@.skip(i as int + m as int),
                    marker@,
                    filler@,
                )) =~= (out@ + filler@) + spec_replace(
                    base@.skip(i as int + m as int),
                    marker@,
                    filler@,
                ));
            }
            out.append(filler);
            i = i + m;
        } else {
            let c = base.substring_char(i, i + 1);
            proof {
                lemma_replace_no_match(base@, marker@, filler@, i as int);
                assert(c@ =~= seq![base@[i as int]]);
                assert(out@ + (seq![base@[i as int]] + spec_replace(
                    base@.skip(i as int + 1),
                    marker@,
                    filler@,
                )) =~= (out@ + seq![base@[i as int]]) + spec_replace(
                    base@.skip(i as int + 1),
                    marker@,
                    filler@,
                ));
            }
            out.append(c);
            i = i + 1;
        }
    }
    proof {
        assert(base@.skip(n as int) =~= Seq::<char>::empty());
        assert(out@ + Seq::<char>::empty() =~= out@);
    }
    out
}

} // verus!
