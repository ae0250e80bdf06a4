//! Text helpers shared by the modules that build messages: joining,
//! membership and equality over lists of strings, and decimal rendering.
use vstd::prelude::*;

verus! {

/// `parts` joined with `sep` between consecutive parts.
pub open spec fn seq_join(parts: Seq<Seq<char>>, sep: Seq<char>) -> Seq<char>
    decreases parts.len(),
{
    if parts.len() == 0 {
        Seq::empty()
    } else if parts.len() == 1 {
        parts[0]
    } else {
        seq_join(parts.drop_last(), sep) + sep + parts.last()
    }
}

/// The text of one decimal digit.
pub open spec fn digit_text(d: nat) -> Seq<char> {
    if d == 0 {
        "0"@
    } else if d == 1 {
        "1"@
    } else if d == 2 {
        "2"@
    } else if d == 3 {
        "3"@
    } else if d == 4 {
        "4"@
    } else if d == 5 {
        "5"@
    } else if d == 6 {
        "6"@
    } else if d == 7 {
        "7"@
    } else if d == 8 {
        "8"@
    } else {
        "9"@
    }
}

/// The decimal rendering of `n`, most significant digit first, without
/// leading zeros.
pub open spec fn decimal(n: nat) -> Seq<char>
    decreases n,
{
    if n < 10 {
        digit_text(n)
    } else {
        decimal(n / 10) + digit_text(n % 10)
    }
}

/// Whether two texts are equal.
pub fn str_eq(a: &str, b: &str) -> (res: bool)
    ensures
        res == (a@ == b@),
{
    let sa = String::from_str(a);
    let sb = String::from_str(b);
    sa == sb
}

/// A copy of an optional text.
pub fn clone_opt_string(o: &Option<String>) -> (res: Option<String>)
    ensures
        res == *o,
{
    match o {
        Some(s) => Some(s.clone()),
        None => None,
    }
}

/// The text `true` or `false`.
pub open spec fn bool_text(b: bool) -> Seq<char> {
    if b {
        "true"@
    } else {
        "false"@
    }
}

/// Joins `parts` with `sep`, as `[String]::join` does.
pub fn join_strings(parts: &Vec<String>, sep: &str) -> (res: String)
    ensures
        res@ == seq_join(parts.deep_view(), sep@),
{
    let mut res = String::new();
    let ghost parts_view = parts.deep_view();
    let n = parts.len();
    let mut i: usize = 0;
    while i < n
        invariant
            n == parts.len(),
            0 <= i <= n,
            parts_view == parts.deep_view(),
            res@ == seq_join(parts_view.take(i as int), sep@),
        decreases n - i,
    {
        if i != 0 {
            res.append(sep);
        }
        res.append(parts[i].as_str());
        assert(parts_view.take((i + 1) as int).drop_last() =~= parts_view.take(i as int));
        i = i + 1;
    }
    assert(parts_view.take(n as int) =~= parts_view);
    res
}

/// Whether the two lists hold the same strings in the same order.
pub fn strings_equal(a: &Vec<String>, b: &Vec<String>) -> (res: bool)
    ensures
        res == (a.deep_view() == b.deep_view()),
{
    if a.len() != b.len() {
        proof {
            assert(a.deep_view().len() != b.deep_view().len());
        }
        return false;
    }
    let n = a.len();
    let mut i: usize = 0;
    while i < n
        invariant
            n == a.len(),
            n == b.len(),
            0 <= i <= n,
            forall|j: int| 0 <= j < i ==> a.deep_view()[j] == b.deep_view()[j],
        decreases n - i,
    {
        if a[i] != b[i] {
            proof {
                assert(a.deep_view()[i as int] != b.deep_view()[i as int]);
            }
            return false;
        }
        i = i + 1;
    }
    assert(a.deep_view() =~= b.deep_view());
    true
}

/// Whether `v` holds a string equal to `s`.
pub fn contains_string(v: &Vec<String>, s: &String) -> (res: bool)
    ensures
        res == v.deep_view().contains(s@),
{
    let n = v.len();
    let mut i: usize = 0;
    while i < n
        invariant
            n == v.len(),
            0 <= i <= n,
            forall|j: int| 0 <= j < i ==> v.deep_view()[j] != s@,
        decreases n - i,
    {
        if v[i] == *s {
            proof {
                assert(v.deep_view()[i as int] == s@);
            }
            return true;
        }
        i = i + 1;
    }
    false
}

/// The position of the first string in `v` equal to `s`, if there is one.
pub fn position_of(v: &Vec<String>, s: &String) -> (res: Option<usize>)
    ensures
        match res {
            Some(i) => i < v.len() && v.deep_view()[i as int] == s@ && forall|j: int|
                0 <= j < i ==> v.deep_view()[j] != s@,
            None => !v.deep_view().contains(s@),
        },
{
    let n = v.len();
    let mut i: usize = 0;
    while i < n
        invariant
            n == v.len(),
            0 <= i <= n,
            forall|j: int| 0 <= j < i ==> v.deep_view()[j] != s@,
        decreases n - i,
    {
        if v[i] == *s {
            return Some(i);
        }
        i = i + 1;
    }
    None
}

/// The text of one decimal digit.
fn digit_str(d: u64) -> (s: &'static str)
    requires
        d < 10,
    ensures
        s@ == digit_text(d as nat),
{
    if d == 0 {
        "0"
    } else if d == 1 {
        "1"
    } else if d == 2 {
        "2"
    } else if d == 3 {
        "3"
    } else if d == 4 {
        "4"
    } else if d == 5 {
        "5"
    } else if d == 6 {
        "6"
    } else if d == 7 {
        "7"
    } else if d == 8 {
        "8"
    } else {
        "9"
    }
}

/// Appends the decimal rendering of `n` to `out`.
pub fn push_decimal(out: &mut String, n: u64)
    ensures
        final(out)@ == old(out)@ + decimal(n as nat),
    decreases n,
{
    if n >= 10 {
        push_decimal(out, n / 10);
    }
    out.append(digit_str(n % 10));
    proof {
        if n >= 10 {
            assert(old(out)@ + decimal((n / 10) as nat) + digit_text((n % 10) as nat)
                =~= old(out)@ + decimal(n as nat));
        } else {
            assert(decimal(n as nat) == digit_text(n as nat));
        }
    }
}

/// The decimal rendering of `n`.
pub fn decimal_string(n: u64) -> (res: String)
    ensures
        res@ == decimal(n as nat),
{
    let mut res = String::new();
    push_decimal(&mut res, n);
    assert(res@ =~= decimal(n as nat));
    res
}

/// The text `true` or `false`.
pub fn bool_str(b: bool) -> (s: &'static str)
    ensures
        s@ == bool_text(b),
{
    if b {
        "true"
    } else {
        "false"
    }
}

/// A copy of `v`.
pub fn clone_strings(v: &Vec<String>) -> (res: Vec<String>)
    ensures
        res.deep_view() == v.deep_view(),
{
    let mut res: Vec<String> = Vec::new();
    let n = v.len();
    let mut i: usize = 0;
    while i < n
        invariant
            n == v.len(),
            0 <= i <= n,
            res.deep_view() == v.deep_view().take(i as int),
        decreases n - i,
    {
        let c = v[i].clone();
        let ghost before = res.deep_view();
        res.push(c);
        assert(res.deep_view() =~= before.push(c@));
        assert(res.deep_view() =~= v.deep_view().take((i + 1) as int));
        i = i + 1;
    }
    assert(v.deep_view().take(n as int) =~= v.deep_view());
    res
}

} // verus!

verus! {

/// Lexicographic order on texts, character by character: the order of
/// `str`'s comparison operators.
pub open spec fn lex_lt(a: Seq<char>, b: Seq<char>) -> bool
    decreases a.len(),
{
    if a.len() == 0 {
        b.len() > 0
    } else if b.len() == 0 {
        false
    } else if a[0] == b[0] {
        lex_lt(a.drop_first(), b.drop_first())
    } else {
        (a[0] as int) < (b[0] as int)
    }
}

/// No text is before itself.
pub proof fn lemma_lex_irreflexive(a: Seq<char>)
    ensures
        !lex_lt(a, a),
    decreases a.len(),
{
    if a.len() > 0 {
        lemma_lex_irreflexive(a.drop_first());
    }
}

/// Of two different texts, one is before the other, and not both.
pub proof fn lemma_lex_total(a: Seq<char>, b: Seq<char>)
    ensures
        a != b ==> (lex_lt(a, b) || lex_lt(b, a)),
        !(lex_lt(a, b) && lex_lt(b, a)),
    decreases a.len(),
{
    if a.len() > 0 && b.len() > 0 && a[0] == b[0] {
        lemma_lex_total(a.drop_first(), b.drop_first());
        if a != b {
            assert(a =~= seq![a[0]] + a.drop_first());
            assert(b =~= seq![b[0]] + b.drop_first());
        }
    } else if a.len() == 0 && b.len() == 0 {
        assert(a =~= b);
    } else if a.len() > 0 && b.len() > 0 {
        assert((a[0] as int) != (b[0] as int));
    }
}

/// The order is transitive.
pub proof fn lemma_lex_transitive(a: Seq<char>, b: Seq<char>, c: Seq<char>)
    requires
        lex_lt(a, b),
        lex_lt(b, c),
    ensures
        lex_lt(a, c),
    decreases a.len(),
{
    if a.len() > 0 && b.len() > 0 && c.len() > 0 && a[0] == b[0] && b[0] == c[0] {
        lemma_lex_transitive(a.drop_first(), b.drop_first(), c.drop_first());
    }
}

/// Whether the texts `xs` are in strictly increasing order.
pub open spec fn strictly_increasing(xs: Seq<Seq<char>>) -> bool {
    forall|i: int, j: int| 0 <= i < j < xs.len() ==> lex_lt(#[trigger] xs[i], #[trigger] xs[j])
}

/// Two strictly increasing lists of the same texts are the same list.
pub proof fn lemma_increasing_texts_unique(xs: Seq<Seq<char>>, ys: Seq<Seq<char>>)
    requires
        strictly_increasing(xs),
        strictly_increasing(ys),
        forall|i: int| 0 <= i < xs.len() ==> ys.contains(#[trigger] xs[i]),
        forall|i: int| 0 <= i < ys.len() ==> xs.contains(#[trigger] ys[i]),
    ensures
        xs == ys,
    decreases xs.len(),
{
    if xs.len() == 0 {
        if ys.len() > 0 {
            assert(xs.contains(ys[0]));
        }
        assert(xs =~= ys);
    } else if ys.len() == 0 {
        assert(ys.contains(xs[0]));
    } else {
        assert(ys.contains(xs[0]));
        assert(xs.contains(ys[0]));
        let k = choose|k: int| 0 <= k < ys.len() && ys[k] == xs[0];
        let l = choose|l: int| 0 <= l < xs.len() && xs[l] == ys[0];
        if k > 0 && l > 0 {
            assert(lex_lt(ys[0], ys[k]));
            assert(lex_lt(xs[0], xs[l]));
            lemma_lex_total(xs[0], ys[0]);
        }
        assert(xs[0] == ys[0]);
        let xr = xs.drop_first();
        let yr = ys.drop_first();
        assert forall|i: int| 0 <= i < xr.len() implies yr.contains(#[trigger] xr[i]) by {
            assert(xr[i] == xs[i + 1]);
            assert(ys.contains(xs[i + 1]));
            let j = choose|j: int| 0 <= j < ys.len() && ys[j] == xs[i + 1];
            assert(lex_lt(xs[0], xs[i + 1]));
            if j == 0 {
                lemma_lex_irreflexive(xs[0]);
            }
            assert(yr[j - 1] == ys[j]);
        }
        assert forall|i: int| 0 <= i < yr.len() implies xr.contains(#[trigger] yr[i]) by {
            assert(yr[i] == ys[i + 1]);
            assert(xs.contains(ys[i + 1]));
            let j = choose|j: int| 0 <= j < xs.len() && xs[j] == ys[i + 1];
            assert(lex_lt(ys[0], ys[i + 1]));
            if j == 0 {
                lemma_lex_irreflexive(ys[0]);
            }
            assert(xr[j - 1] == xs[j]);
        }
        assert forall|i: int, j: int| 0 <= i < j < xr.len() implies lex_lt(#[trigger] xr[i], #[trigger] xr[j]) by {
            assert(xr[i] == xs[i + 1] && xr[j] == xs[j + 1]);
        }
        assert forall|i: int, j: int| 0 <= i < j < yr.len() implies lex_lt(#[trigger] yr[i], #[trigger] yr[j]) by {
            assert(yr[i] == ys[i + 1] && yr[j] == ys[j + 1]);
        }
        lemma_increasing_texts_unique(xr, yr);
        assert(xs =~= seq![xs[0]] + xr);
        assert(ys =~= seq![ys[0]] + yr);
    }
}

/// Whether `a` comes before `b` in lexicographic order.
pub fn text_less(a: &String, b: &String) -> (res: bool)
    ensures
        res == lex_lt(a@, b@),
{
    let sa = a.as_str();
    let sb = b.as_str();
    let la = sa.unicode_len();
    let lb = sb.unicode_len();
    let mut i: usize = 0;
    assert(a@.skip(0) =~= a@);
    assert(b@.skip(0) =~= b@);
    while i < la && i < lb
        invariant
            la == a@.len(),
            lb == b@.len(),
            sa@ == a@,
            sb@ == b@,
            0 <= i <= la,
            i <= lb,
            lex_lt(a@, b@) == lex_lt(a@.skip(i as int), b@.skip(i as int)),
        decreases la - i,
    {
        let ca = sa.get_char(i);
        let cb = sb.get_char(i);
        assert(a@.skip(i as int)[0] == ca);
        assert(b@.skip(i as int)[0] == cb);
        if ca != cb {
            return (ca as u32) < (cb as u32);
        }
        assert(a@.skip(i as int).drop_first() =~= a@.skip(i + 1));
        assert(b@.skip(i as int).drop_first() =~= b@.skip(i + 1));
        i = i + 1;
    }
    assert(a@.skip(i as int).len() == la - i);
    assert(b@.skip(i as int).len() == lb - i);
    i == la && i < lb
}

} // verus!

