//! Verified text utilities: lexicographic order on character sequences,
//! sorting, filtering, and joining lists of names.

use vstd::prelude::*;
use vstd::seq_lib::lemma_multiset_commutative;
use itertools::Itertools;

verus! {

/// Lexicographic "less than or equal" over character sequences, comparing
/// code points position by position; a prefix precedes its extensions.
pub open spec fn lex_le(a: Seq<char>, b: Seq<char>) -> bool
    decreases a.len(),
{
    if a.len() == 0 {
        true
    } else if b.len() == 0 {
        false
    } else if a[0] as u32 == b[0] as u32 {
        lex_le(a.drop_first(), b.drop_first())
    } else {
        (a[0] as u32) < (b[0] as u32)
    }
}

/// Any two character sequences are comparable under `lex_le`.
pub proof fn lemma_lex_le_total(a: Seq<char>, b: Seq<char>)
    ensures
        lex_le(a, b) || lex_le(b, a),
    decreases a.len(),
{
    if a.len() > 0 && b.len() > 0 && a[0] as u32 == b[0] as u32 {
        lemma_lex_le_total(a.drop_first(), b.drop_first());
    }
}

/// `lex_le` is transitive.
pub proof fn lemma_lex_le_trans(a: Seq<char>, b: Seq<char>, c: Seq<char>)
    requires
        lex_le(a, b),
        lex_le(b, c),
    ensures
        lex_le(a, c),
    decreases a.len(),
{
    if a.len() > 0 {
        if a[0] as u32 == b[0] as u32 && b[0] as u32 == c[0] as u32 {
            lemma_lex_le_trans(a.drop_first(), b.drop_first(), c.drop_first());
        }
    }
}

/// A sequence of names in nondecreasing lexicographic order.
pub open spec fn lex_sorted(s: Seq<Seq<char>>) -> bool {
    forall|i: int, j: int| 0 <= i < j < s.len() ==> #[trigger] lex_le(s[i], s[j])
}

/// Compares two strings in the order `lex_le` describes.
pub fn str_lex_le(a: &str, b: &str) -> (r: bool)
    ensures
        r == lex_le(a@, b@),
{
    let a_len = a.unicode_len();
    let b_len = b.unicode_len();
    let mut i: usize = 0;
    proof {
        assert(a@.skip(0) =~= a@);
        assert(b@.skip(0) =~= b@);
    }
    loop
        invariant
            i <= a_len,
            i <= b_len,
            a_len == a@.len(),
            b_len == b@.len(),
            lex_le(a@, b@) == lex_le(a@.skip(i as int), b@.skip(i as int)),
            lex_le(b@, a@) == lex_le(b@.skip(i as int), a@.skip(i as int)),
        decreases a_len - i,
    {
        if i == a_len {
            return true;
        }
        if i == b_len {
            return false;
        }
        let ca = a.get_char(i);
        let cb = b.get_char(i);
        if ca as u32 == cb as u32 {
            proof {
                assert(a@.skip(i as int).drop_first() =~= a@.skip(i + 1));
                assert(b@.skip(i as int).drop_first() =~= b@.skip(i + 1));
            }
            i = i + 1;
        } else {
            return (ca as u32) < (cb as u32);
        }
    }
}

/// Equality of two strings, stated over their views.
pub fn string_eq(a: &String, b: &String) -> (r: bool)
    ensures
        r == (a@ == b@),
{
    let r = a.eq(b);
    r
}

/// Equality of two string slices, stated over their views.
pub fn str_eq(a: &str, b: &str) -> (r: bool)
    ensures
        r == (a@ == b@),
{
    let oa = a.to_owned();
    let ob = b.to_owned();
    string_eq(&oa, &ob)
}

/// Keeps, in order, the names that differ from `excluded`.
pub fn filter_not_equal(v: &Vec<String>, excluded: &String) -> (r: Vec<String>)
    ensures
        r.deep_view() == v.deep_view().filter(|s: Seq<char>| s != excluded@),
{
    let ghost pred = |s: Seq<char>| s != excluded@;
    let mut r: Vec<String> = Vec::new();
    let mut i: usize = 0;
    proof {
        reveal(Seq::filter);
        assert(v.deep_view().subrange(0, 0).filter(pred) =~= Seq::<Seq<char>>::empty());
    }
    while i < v.len()
        invariant
            i <= v.len(),
            v.deep_view().len() == v.len(),
            pred == (|s: Seq<char>| s != excluded@),
            r.deep_view() =~= v.deep_view().subrange(0, i as int).filter(pred),
        decreases v.len() - i,
    {
        proof {
            reveal(Seq::filter);
            assert(v.deep_view().subrange(0, i + 1).drop_last() =~= v.deep_view().subrange(
                0,
                i as int,
            ));
            assert(v.deep_view().subrange(0, i + 1).last() == v[i as int]@);
        }
        let ghost prev = r.deep_view();
        let keep = !string_eq(&v[i], excluded);
        if keep {
            r.push(v[i].clone());
            proof {
                assert(r.deep_view() =~= prev.push(v[i as int]@));
            }
        }
        i = i + 1;
    }
    proof {
        assert(v.deep_view().subrange(0, v.len() as int) =~= v.deep_view());
    }
    r
}

/// Whether some entry of `v` reads as `s`.
pub fn contains_string(v: &Vec<String>, s: &String) -> (r: bool)
    ensures
        r == v.deep_view().contains(s@),
{
    let mut i: usize = 0;
    while i < v.len()
        invariant
            i <= v.len(),
            v.deep_view().len() == v.len(),
            forall|j: int| 0 <= j < i ==> v.deep_view()[j] != s@,
        decreases v.len() - i,
    {
        if string_eq(&v[i], s) {
            assert(v.deep_view()[i as int] == s@);
            return true;
        }
        i = i + 1;
    }
    assert(forall|j: int| 0 <= j < v.deep_view().len() ==> v.deep_view()[j] != s@);
    false
}

/// Places `x` into the sorted vector `r`, keeping it sorted; the result holds
/// exactly the old entries and `x`.
fn insert_sorted(r: &Vec<String>, x: &String) -> (out: Vec<String>)
    requires
        lex_sorted(r.deep_view()),
    ensures
        lex_sorted(out.deep_view()),
        out.deep_view().to_multiset() == r.deep_view().to_multiset().insert(x@),
{
    broadcast use vstd::seq_lib::group_to_multiset_ensures;

    let mut out: Vec<String> = Vec::new();
    let mut i: usize = 0;
    while i < r.len() && str_lex_le(r[i].as_str(), x.as_str())
        invariant
            i <= r.len(),
            r.deep_view().len() == r.len(),
            lex_sorted(r.deep_view()),
            out.deep_view() =~= r.deep_view().subrange(0, i as int),
            forall|j: int| 0 <= j < i ==> lex_le(#[trigger] r.deep_view()[j], x@),
        decreases r.len() - i,
    {
        let ghost prev = out.deep_view();
        out.push(r[i].clone());
        proof {
            assert(out.deep_view() =~= prev.push(r.deep_view()[i as int]));
        }
        i = i + 1;
    }
    let ghost k = i as int;
    proof {
        if k < r.deep_view().len() {
            lemma_lex_le_total(r.deep_view()[k], x@);
        }
        // every later entry is at least x
        assert forall|j: int| k <= j < r.deep_view().len() implies lex_le(
            x@,
            #[trigger] r.deep_view()[j],
        ) by {
            if k < j {
                lemma_lex_le_trans(x@, r.deep_view()[k], r.deep_view()[j]);
            }
        }
    }
    let ghost before_x = out.deep_view();
    out.push(x.clone());
    proof {
        assert(out.deep_view() =~= before_x.push(x@));
        assert(r.deep_view().subrange(k, k) =~= Seq::<Seq<char>>::empty());
        assert(out.deep_view() =~= r.deep_view().subrange(0, k).push(x@) + r.deep_view().subrange(
            k,
            k,
        ));
    }
    let mut i2: usize = i;
    while i2 < r.len()
        invariant
            0 <= k <= i2 <= r.len(),
            r.deep_view().len() == r.len(),
            out.deep_view() =~= r.deep_view().subrange(0, k).push(x@) + r.deep_view().subrange(
                k,
                i2 as int,
            ),
        decreases r.len() - i2,
    {
        let ghost prev = out.deep_view();
        out.push(r[i2].clone());
        proof {
            assert(out.deep_view() =~= prev.push(r.deep_view()[i2 as int]));
            assert(out.deep_view() =~= r.deep_view().subrange(0, k).push(x@)
                + r.deep_view().subrange(k, i2 + 1));
        }
        i2 = i2 + 1;
    }
    proof {
        let rd = r.deep_view();
        let front = rd.subrange(0, k);
        let back = rd.subrange(k, rd.len() as int);
        assert(out.deep_view() =~= front.push(x@) + back);
        // sortedness: all pairs of the result are ordered
        assert forall|p: int, q: int|
            #![trigger out.deep_view()[p], out.deep_view()[q]]
            0 <= p < q < out.deep_view().len() implies lex_le(
            out.deep_view()[p],
            out.deep_view()[q],
        ) by {
            let od = out.deep_view();
            if p < k && q < k {
                assert(od[p] == rd[p] && od[q] == rd[q]);
            } else if p < k && q == k {
                assert(od[p] == rd[p] && od[q] == x@);
            } else if p < k && q > k {
                assert(od[p] == rd[p] && od[q] == rd[q - 1]);
            } else if p == k {
                assert(od[p] == x@);
                if q > k {
                    assert(od[q] == rd[q - 1]);
                }
            } else {
                assert(od[p] == rd[p - 1] && od[q] == rd[q - 1]);
            }
        }
        // contents: the multiset gains exactly x
        lemma_multiset_commutative(front.push(x@), back);
        lemma_multiset_commutative(front, back);
        assert(front + back =~= rd);
        assert(front.push(x@).to_multiset() =~= front.to_multiset().insert(x@));
        assert(out.deep_view().to_multiset() =~= rd.to_multiset().insert(x@));
    }
    out
}

/// Sorts names lexicographically; the result is ordered and holds exactly
/// the input's entries.
pub fn sort_strings(v: &Vec<String>) -> (r: Vec<String>)
    ensures
        lex_sorted(r.deep_view()),
        r.deep_view().to_multiset() == v.deep_view().to_multiset(),
{
    broadcast use vstd::seq_lib::group_to_multiset_ensures;

    let mut r: Vec<String> = Vec::new();
    let mut i: usize = 0;
    proof {
        assert(v.deep_view().subrange(0, 0) =~= Seq::<Seq<char>>::empty());
    }
    while i < v.len()
        invariant
            i <= v.len(),
            v.deep_view().len() == v.len(),
            lex_sorted(r.deep_view()),
            r.deep_view().to_multiset() == v.deep_view().subrange(0, i as int).to_multiset(),
        decreases v.len() - i,
    {
        proof {
            assert(v.deep_view().subrange(0, i + 1).drop_last() =~= v.deep_view().subrange(
                0,
                i as int,
            ));
            assert(v.deep_view().subrange(0, i + 1) =~= v.deep_view().subrange(0, i as int).push(
                v[i as int]@,
            ));
        }
        let next = insert_sorted(&r, &v[i]);
        proof {
            let prefix = v.deep_view().subrange(0, i as int);
            prefix.to_multiset_ensures();
            assert(prefix.push(v[i as int]@).to_multiset() =~= prefix.to_multiset().insert(
                v[i as int]@,
            ));
            assert(next.deep_view().to_multiset() =~= v.deep_view().subrange(
                0,
                i + 1,
            ).to_multiset());
        }
        r = next;
        i = i + 1;
    }
    proof {
        assert(v.deep_view().subrange(0, v.len() as int) =~= v.deep_view());
    }
    r
}

/// The elements of `xs` laid end to end with `sep` between each pair.
pub open spec fn joined(xs: Seq<Seq<char>>, sep: Seq<char>) -> Seq<char>
    decreases xs.len(),
{
    if xs.len() == 0 {
        Seq::empty()
    } else if xs.len() == 1 {
        xs[0]
    } else {
        xs[0] + sep + joined(xs.drop_first(), sep)
    }
}

/// Relies on itertools' `Itertools::join`: the elements' text (for `String`,
/// the string itself) combined into one `String` with `sep` between each pair,
/// and the empty string for an empty list.
#[verifier::external_body]
pub fn join_with(items: &Vec<String>, sep: &str) -> (r: String)
    ensures
        r@ == joined(items.deep_view(), sep@),
{
    items.iter().join(sep)
}

} // verus!
