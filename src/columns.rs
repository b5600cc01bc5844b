use vstd::prelude::*;
use vstd::string::*;
use crate::text::push_char;

verus! {

/// Lexicographic order of character sequences by code point: the order of `str`, whose
/// byte order on UTF-8 agrees with the order of the code points.
pub open spec fn lex_lt(a: Seq<char>, b: Seq<char>) -> bool
    decreases a.len(),
{
    if a.len() == 0 {
        b.len() > 0
    } else if b.len() == 0 {
        false
    } else if a[0] != b[0] {
        (a[0] as int) < (b[0] as int)
    } else {
        lex_lt(a.drop_first(), b.drop_first())
    }
}

proof fn lemma_lex_irreflexive(a: Seq<char>)
    ensures
        !lex_lt(a, a),
    decreases a.len(),
{
    if a.len() > 0 {
        lemma_lex_irreflexive(a.drop_first());
    }
}

proof fn lemma_lex_total(a: Seq<char>, b: Seq<char>)
    requires
        a != b,
    ensures
        lex_lt(a, b) || lex_lt(b, a),
    decreases a.len(),
{
    if a.len() == 0 && b.len() == 0 {
        assert(a =~= b);
    } else if a.len() == 0 || b.len() == 0 {
    } else if a[0] != b[0] {
        assert((a[0] as int) != (b[0] as int));
    } else {
        if a.drop_first() == b.drop_first() {
            assert(a =~= seq![a[0]] + a.drop_first());
            assert(b =~= seq![b[0]] + b.drop_first());
        }
        lemma_lex_total(a.drop_first(), b.drop_first());
    }
}

proof fn lemma_lex_transitive(a: Seq<char>, b: Seq<char>, c: Seq<char>)
    requires
        lex_lt(a, b),
        lex_lt(b, c),
    ensures
        lex_lt(a, c),
    decreases a.len(),
{
    if a.len() > 0 && b.len() > 0 && c.len() > 0 && a[0] == b[0] && b[0] == c[0] {
        lemma_lex_transitive(a.drop_first(), b.drop_first(), c.drop_first());
    }
}

/// Relies on `str`'s `<`: lexicographic by bytes, which on UTF-8 is by code point.
#[verifier::external_body]
fn str_less(a: &str, b: &str) -> (r: bool)
    ensures
        r == lex_lt(a@, b@),
{
    a < b
}

pub open spec fn views(s: Seq<String>) -> Seq<Seq<char>> {
    s.map_values(|x: String| x@)
}

pub open spec fn strictly_sorted(s: Seq<Seq<char>>) -> bool {
    forall|i: int, j: int| 0 <= i < j < s.len() ==> lex_lt(#[trigger] s[i], #[trigger] s[j])
}

/// Some object among `rows` has the key `k`.
pub open spec fn has_key(rows: Seq<Vec<String>>, k: Seq<char>) -> bool {
    exists|i: int, j: int| 0 <= i < rows.len() && 0 <= j < rows[i]@.len() && #[trigger] rows[i]@[j]@ == k
}

/// Some object among the first `i` rows, or among the first `j` keys of row `i`, has `k`.
spec fn has_key_before(rows: Seq<Vec<String>>, i: int, j: int, k: Seq<char>) -> bool {
    (exists|a: int, b: int| 0 <= a < i && 0 <= b < rows[a]@.len() && #[trigger] rows[a]@[b]@ == k)
        || (exists|b: int| 0 <= b < j && #[trigger] rows[i]@[b]@ == k)
}

fn insert_sorted(out: &mut Vec<String>, key: &String)
    requires
        strictly_sorted(views(old(out)@)),
    ensures
        strictly_sorted(views(final(out)@)),
        forall|x: Seq<char>| views(final(out)@).contains(x) <==> (views(old(out)@).contains(x) || x == key@),
{
    let ghost o = views(out@);
    let mut i: usize = 0;
    while i < out.len() && str_less(out[i].as_str(), key.as_str())
        invariant
            i <= out@.len(),
            views(out@) == o,
            forall|k: int| 0 <= k < i ==> lex_lt(o[k], key@),
        decreases out@.len() - i,
    {
        i += 1;
    }
    if i < out.len() && out[i] == *key {
        assert(o[i as int] == key@);
        return;
    }
    proof {
        if i < o.len() {
            lemma_lex_total(o[i as int], key@);
            assert forall|j: int| i <= j < o.len() implies lex_lt(key@, o[j]) by {
                if j > i {
                    lemma_lex_transitive(key@, o[i as int], o[j]);
                }
            }
        }
    }
    out.insert(i, key.clone());
    let ghost n = views(out@);
    assert(n =~= o.insert(i as int, key@));
    assert forall|x: Seq<char>| n.contains(x) <==> (o.contains(x) || x == key@) by {
        if n.contains(x) {
            let k = choose|k: int| 0 <= k < n.len() && n[k] == x;
            if k < i {
                assert(o[k] == x);
            } else if k > i {
                assert(o[k - 1] == x);
            }
        }
        if o.contains(x) {
            let k = choose|k: int| 0 <= k < o.len() && o[k] == x;
            if k < i {
                assert(n[k] == x);
            } else {
                assert(n[k + 1] == x);
            }
        }
        if x == key@ {
            assert(n[i as int] == x);
        }
    }
    assert forall|a: int, b: int| 0 <= a < b < n.len() implies lex_lt(n[a], n[b]) by {
        if b < i {
        } else if b == i {
        } else if a < i {
            assert(n[b] == o[b - 1]);
            lemma_lex_transitive(n[a], key@, n[b]);
        } else if a == i {
        } else {
        }
    }
}

/// The keys of all `rows`, each once, in lexicographic order.
pub fn sorted_keys(rows: &Vec<Vec<String>>) -> (r: Vec<String>)
    ensures
        strictly_sorted(views(r@)),
        forall|x: Seq<char>| views(r@).contains(x) <==> has_key(rows@, x),
{
    let mut out: Vec<String> = Vec::new();
    let mut i: usize = 0;
    while i < rows.len()
        invariant
            i <= rows@.len(),
            strictly_sorted(views(out@)),
            forall|x: Seq<char>| views(out@).contains(x) <==> has_key_before(rows@, i as int, 0, x),
        decreases rows@.len() - i,
    {
        let mut j: usize = 0;
        while j < rows[i].len()
            invariant
                i < rows@.len(),
                j <= rows@[i as int]@.len(),
                strictly_sorted(views(out@)),
                forall|x: Seq<char>| views(out@).contains(x) <==> has_key_before(rows@, i as int, j as int, x),
            decreases rows@[i as int]@.len() - j,
        {
            let ghost before = views(out@);
            insert_sorted(&mut out, &rows[i][j]);
            assert forall|x: Seq<char>| views(out@).contains(x) <==> has_key_before(rows@, i as int, j + 1, x) by {
                if x == rows@[i as int]@[j as int]@ {
                } else if has_key_before(rows@, i as int, j + 1, x) {
                    if exists|b: int| 0 <= b < j + 1 && #[trigger] rows@[i as int]@[b]@ == x {
                        let b = choose|b: int| 0 <= b < j + 1 && #[trigger] rows@[i as int]@[b]@ == x;
                        assert(b < j);
                    }
                }
            }
            j += 1;
        }
        assert forall|x: Seq<char>| has_key_before(rows@, i as int, j as int, x) <==> has_key_before(rows@, i + 1, 0, x) by {
            if exists|b: int| 0 <= b < j && #[trigger] rows@[i as int]@[b]@ == x {
                let b = choose|b: int| 0 <= b < j && #[trigger] rows@[i as int]@[b]@ == x;
                assert(rows@[i as int]@[b]@ == x);
            }
            if exists|a: int, b: int| 0 <= a < i + 1 && 0 <= b < rows@[a]@.len() && #[trigger] rows@[a]@[b]@ == x {
                let (a, b) = choose|a: int, b: int| 0 <= a < i + 1 && 0 <= b < rows@[a]@.len() && #[trigger] rows@[a]@[b]@ == x;
                if a == i {
                    assert(rows@[i as int]@[b]@ == x);
                }
            }
        }
        i += 1;
    }
    out
}

/// `"k1","k2",...`: each key in double quotes, joined by commas.
pub open spec fn quoted_join(s: Seq<Seq<char>>) -> Seq<char>
    decreases s.len(),
{
    if s.len() == 0 {
        Seq::empty()
    } else if s.len() == 1 {
        seq!['"'] + s[0] + seq!['"']
    } else {
        quoted_join(s.drop_last()) + seq![','] + seq!['"'] + s.last() + seq!['"']
    }
}

pub fn join_quoted(keys: &Vec<String>) -> (r: String)
    ensures
        r@ == quoted_join(views(keys@)),
{
    let mut r = String::new();
    let mut i: usize = 0;
    while i < keys.len()
        invariant
            i <= keys@.len(),
            r@ == quoted_join(views(keys@).take(i as int)),
        decreases keys@.len() - i,
    {
        let ghost before = r@;
        if i > 0 {
            push_char(&mut r, ',');
        }
        push_char(&mut r, '"');
        let r2 = r.concat(keys[i].as_str());
        r = r2;
        push_char(&mut r, '"');
        assert(views(keys@).take(i + 1).drop_last() =~= views(keys@).take(i as int));
        if i == 0 {
            assert(r@ =~= seq!['"'] + keys@[0]@ + seq!['"']);
        } else {
            assert(r@ =~= before + seq![','] + seq!['"'] + keys@[i as int]@ + seq!['"']);
        }
        i += 1;
    }
    assert(views(keys@).take(i as int) =~= views(keys@));
    r
}

/// The `columns` parameter for a write of `rows` (the keys of each object in an array
/// body): the sorted, deduplicated, quoted union of their keys, or `None` where they hold
/// no key.
pub fn columns_param(rows: &Vec<Vec<String>>) -> (r: Option<String>)
    ensures
        r is None <==> (forall|x: Seq<char>| !has_key(rows@, x)),
        r matches Some(c) ==> exists|ks: Seq<Seq<char>>|
            strictly_sorted(ks) && (forall|x: Seq<char>| ks.contains(x) <==> has_key(rows@, x))
                && c@ == quoted_join(ks),
{
    let keys = sorted_keys(rows);
    if keys.len() == 0 {
        assert forall|x: Seq<char>| !has_key(rows@, x) by {
            if has_key(rows@, x) {
                assert(views(keys@).contains(x));
            }
        }
        None
    } else {
        assert(views(keys@).contains(views(keys@)[0]));
        assert(has_key(rows@, views(keys@)[0]));
        Some(join_quoted(&keys))
    }
}

/// A list of keys in strictly increasing order is fixed by the keys it holds: the
/// `columns` value of a write is determined by the union of the rows' keys.
pub proof fn lemma_sorted_keys_unique(a: Seq<Seq<char>>, b: Seq<Seq<char>>)
    requires
        strictly_sorted(a),
        strictly_sorted(b),
        forall|x: Seq<char>| a.contains(x) <==> b.contains(x),
    ensures
        a == b,
    decreases a.len(),
{
    if a.len() == 0 {
        if b.len() > 0 {
            assert(b.contains(b[0]));
        }
        assert(a =~= b);
    } else {
        if b.len() == 0 {
            assert(a.contains(a[0]));
        }
        assert(a.contains(a[0]));
        assert(b.contains(b[0]));
        let k = choose|k: int| 0 <= k < b.len() && b[k] == a[0];
        let m = choose|m: int| 0 <= m < a.len() && a[m] == b[0];
        lemma_lex_irreflexive(a[0]);
        if k > 0 {
            assert(lex_lt(b[0], b[k]));
            if m > 0 {
                assert(lex_lt(a[0], a[m]));
                lemma_lex_transitive(a[0], a[m], a[0]);
            }
        }
        let ta = a.drop_first();
        let tb = b.drop_first();
        assert forall|x: Seq<char>| ta.contains(x) <==> tb.contains(x) by {
            if ta.contains(x) {
                let i = choose|i: int| 0 <= i < ta.len() && ta[i] == x;
                assert(a[i + 1] == x);
                assert(lex_lt(a[0], a[i + 1]));
                assert(a.contains(x));
                let j = choose|j: int| 0 <= j < b.len() && b[j] == x;
                if j == 0 {
                    lemma_lex_irreflexive(x);
                }
                assert(tb[j - 1] == x);
            }
            if tb.contains(x) {
                let i = choose|i: int| 0 <= i < tb.len() && tb[i] == x;
                assert(b[i + 1] == x);
                assert(lex_lt(b[0], b[i + 1]));
                assert(b.contains(x));
                let j = choose|j: int| 0 <= j < a.len() && a[j] == x;
                if j == 0 {
                    lemma_lex_irreflexive(x);
                }
                assert(ta[j - 1] == x);
            }
        }
        assert forall|i: int, j: int| 0 <= i < j < ta.len() implies lex_lt(#[trigger] ta[i], #[trigger] ta[j]) by {
            assert(ta[i] == a[i + 1] && ta[j] == a[j + 1]);
        }
        assert forall|i: int, j: int| 0 <= i < j < tb.len() implies lex_lt(#[trigger] tb[i], #[trigger] tb[j]) by {
            assert(tb[i] == b[i + 1] && tb[j] == b[j + 1]);
        }
        lemma_sorted_keys_unique(ta, tb);
        assert(a =~= seq![a[0]] + ta);
        assert(b =~= seq![b[0]] + tb);
    }
}

} // verus!
