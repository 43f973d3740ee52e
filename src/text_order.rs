//! Lexicographic order on texts, and sorting lines by it.

use vstd::prelude::*;
use vstd::multiset::Multiset;
use vstd::string::*;

use crate::reply::lines_view;

verus! {

broadcast use vstd::multiset::group_multiset_axioms;

/// `a` comes no later than `b`, comparing code points from the start; a
/// prefix comes first.
pub open spec fn text_le(a: Seq<char>, b: Seq<char>) -> bool
    decreases a.len(),
{
    if a.len() == 0 {
        true
    } else if b.len() == 0 {
        false
    } else if a[0] != b[0] {
        a[0] < b[0]
    } else {
        text_le(a.drop_first(), b.drop_first())
    }
}

/// Every line comes no later than each line after it.
pub open spec fn texts_sorted(s: Seq<Seq<char>>) -> bool {
    forall|i: int, j: int| 0 <= i < j < s.len() ==> text_le(#[trigger] s[i], #[trigger] s[j])
}

pub proof fn lemma_text_le_total(a: Seq<char>, b: Seq<char>)
    ensures
        text_le(a, b) || text_le(b, a),
    decreases a.len(),
{
    if a.len() > 0 && b.len() > 0 && a[0] == b[0] {
        lemma_text_le_total(a.drop_first(), b.drop_first());
    }
}

pub proof fn lemma_text_le_transitive(a: Seq<char>, b: Seq<char>, c: Seq<char>)
    requires
        text_le(a, b),
        text_le(b, c),
    ensures
        text_le(a, c),
    decreases a.len(),
{
    if a.len() > 0 && b.len() > 0 && c.len() > 0 && a[0] == b[0] && b[0] == c[0] {
        lemma_text_le_transitive(a.drop_first(), b.drop_first(), c.drop_first());
    }
}

pub proof fn lemma_text_le_antisymmetric(a: Seq<char>, b: Seq<char>)
    requires
        text_le(a, b),
        text_le(b, a),
    ensures
        a == b,
    decreases a.len(),
{
    if a.len() > 0 && b.len() > 0 {
        lemma_text_le_antisymmetric(a.drop_first(), b.drop_first());
        assert(a =~= seq![a[0]] + a.drop_first());
        assert(b =~= seq![b[0]] + b.drop_first());
    }
}

/// Two sorted sequences that hold the same texts, counted with multiplicity,
/// are the same sequence.
pub proof fn lemma_sorted_unique(a: Seq<Seq<char>>, b: Seq<Seq<char>>)
    requires
        texts_sorted(a),
        texts_sorted(b),
        a.to_multiset() == b.to_multiset(),
    ensures
        a == b,
    decreases a.len(),
{
    a.to_multiset_ensures();
    b.to_multiset_ensures();
    if a.len() == 0 {
        assert(a =~= b);
    } else {
        assert(a.contains(a[0]));
        assert(b.contains(b[0]));
        assert(a.to_multiset().count(a[0]) > 0);
        assert(b.to_multiset().count(b[0]) > 0);
        assert(b.contains(a[0]));
        assert(a.contains(b[0]));
        let j = choose|j: int| 0 <= j < b.len() && b[j] == a[0];
        let i = choose|i: int| 0 <= i < a.len() && a[i] == b[0];
        if j > 0 {
            assert(text_le(b[0], b[j]));
        } else {
            lemma_text_le_total(b[0], a[0]);
        }
        if i > 0 {
            assert(text_le(a[0], a[i]));
        } else {
            lemma_text_le_total(a[0], b[0]);
        }
        lemma_text_le_antisymmetric(a[0], b[0]);
        assert(a.remove(0) =~= a.drop_first());
        assert(b.remove(0) =~= b.drop_first());
        let ra = a.drop_first();
        let rb = b.drop_first();
        assert(texts_sorted(ra)) by {
            assert forall|x: int, y: int| 0 <= x < y < ra.len() implies text_le(
                #[trigger] ra[x],
                #[trigger] ra[y],
            ) by {
                assert(ra[x] == a[x + 1] && ra[y] == a[y + 1]);
            }
        }
        assert(texts_sorted(rb)) by {
            assert forall|x: int, y: int| 0 <= x < y < rb.len() implies text_le(
                #[trigger] rb[x],
                #[trigger] rb[y],
            ) by {
                assert(rb[x] == b[x + 1] && rb[y] == b[y + 1]);
            }
        }
        lemma_sorted_unique(ra, rb);
        assert(a =~= seq![a[0]] + ra);
        assert(b =~= seq![b[0]] + rb);
    }
}

/// Whether `a` comes no later than `b`.
pub fn text_le_exec(a: &str, b: &str) -> (r: bool)
    ensures
        r == text_le(a@, b@),
{
    let alen = a.unicode_len();
    let blen = b.unicode_len();
    let mut i: usize = 0;
    proof {
        assert(a@.subrange(0, alen as int) =~= a@);
        assert(b@.subrange(0, blen as int) =~= b@);
    }
    while i < alen && i < blen
        invariant
            i <= alen,
            i <= blen,
            alen == a@.len(),
            blen == b@.len(),
            text_le(a@, b@) == text_le(
                a@.subrange(i as int, alen as int),
                b@.subrange(i as int, blen as int),
            ),
        decreases alen - i,
    {
        let ca = a.get_char(i);
        let cb = b.get_char(i);
        if ca != cb {
            return ca < cb;
        }
        proof {
            assert(a@.subrange(i + 1, alen as int) =~= a@.subrange(i as int, alen as int).drop_first());
            assert(b@.subrange(i + 1, blen as int) =~= b@.subrange(i as int, blen as int).drop_first());
        }
        i = i + 1;
    }
    i == alen
}

proof fn lemma_empty_multiset(s: Seq<Seq<char>>)
    requires
        s.len() == 0,
    ensures
        s.to_multiset() =~= Multiset::empty(),
{
    s.to_multiset_ensures();
    assert forall|a: Seq<char>| s.to_multiset().count(a) == 0 by {
        assert(!s.contains(a));
    }
}

proof fn lemma_insert_multiset(s: Seq<Seq<char>>, i: int, x: Seq<char>)
    requires
        0 <= i <= s.len(),
    ensures
        s.insert(i, x).to_multiset() =~= s.to_multiset().insert(x),
{
    let t = s.insert(i, x);
    assert(t.remove(i) =~= s);
    t.to_multiset_ensures();
    assert(t.contains(x)) by {
        assert(t[i] == x);
    }
}

/// The same lines, sorted.
pub fn sort_texts(v: Vec<String>) -> (r: Vec<String>)
    ensures
        texts_sorted(lines_view(r@)),
        lines_view(r@).to_multiset() == lines_view(v@).to_multiset(),
{
    let mut rest = v;
    let mut out: Vec<String> = Vec::new();
    proof {
        assert(lines_view(out@) =~= Seq::<Seq<char>>::empty());
        lemma_empty_multiset(lines_view(out@));
        assert(lines_view(rest@).to_multiset().add(lines_view(out@).to_multiset()) =~= lines_view(
            v@,
        ).to_multiset());
    }
    while rest.len() > 0
        invariant
            texts_sorted(lines_view(out@)),
            lines_view(rest@).to_multiset().add(lines_view(out@).to_multiset()) == lines_view(
                v@,
            ).to_multiset(),
        decreases rest.len(),
    {
        let ghost before = rest@;
        let x = rest.pop().unwrap();
        proof {
            assert(before =~= rest@.push(x));
            assert(lines_view(before) =~= lines_view(rest@).push(x@));
            lines_view(rest@).to_multiset_ensures();
        }
        let mut pos: usize = 0;
        while pos < out.len() && text_le_exec(out[pos].as_str(), x.as_str())
            invariant
                pos <= out@.len(),
                forall|k: int| 0 <= k < pos ==> text_le(#[trigger] out@[k]@, x@),
            decreases out@.len() - pos,
        {
            pos = pos + 1;
        }
        let ghost old_out = out@;
        proof {
            if pos < out@.len() {
                assert(!text_le(out@[pos as int]@, x@));
                lemma_text_le_total(out@[pos as int]@, x@);
            }
            assert forall|k: int| pos <= k < old_out.len() implies text_le(x@, #[trigger] old_out[k]@) by {
                if k > pos {
                    assert(lines_view(old_out)[pos as int] == old_out[pos as int]@);
                    assert(lines_view(old_out)[k] == old_out[k]@);
                    lemma_text_le_transitive(x@, old_out[pos as int]@, old_out[k]@);
                }
            }
        }
        out.insert(pos, x);
        proof {
            let lv = lines_view(out@);
            assert(lv =~= lines_view(old_out).insert(pos as int, x@));
            lemma_insert_multiset(lines_view(old_out), pos as int, x@);
            assert forall|i: int, j: int| 0 <= i < j < lv.len() implies text_le(
                #[trigger] lv[i],
                #[trigger] lv[j],
            ) by {
                let olv = lines_view(old_out);
                if j < pos {
                    assert(olv[i] == lv[i] && olv[j] == lv[j]);
                } else if j == pos {
                    assert(lv[i] == old_out[i]@);
                } else if i == pos {
                    assert(lv[j] == old_out[j - 1]@);
                } else if i < pos {
                    assert(lv[i] == old_out[i]@);
                    assert(lv[j] == old_out[j - 1]@);
                    assert(olv[i] == lv[i] && olv[j - 1] == lv[j]);
                } else {
                    assert(olv[i - 1] == lv[i] && olv[j - 1] == lv[j]);
                }
            }
        }
    }
    proof {
        assert(lines_view(rest@) =~= Seq::<Seq<char>>::empty());
        lemma_empty_multiset(lines_view(rest@));
    }
    out
}

} // verus!
