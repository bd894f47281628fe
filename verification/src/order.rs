//! Orders on text and the sorting that follows them.
//!
//! Text is ordered character by character, by code point, a prefix before
//! what it begins: the order of UTF-8 bytes, which is how file names and
//! strings compare.

use vstd::prelude::*;

verus! {

/// Whether `a` comes no later than `b`, character by character.
pub open spec fn lex_le(a: Seq<char>, b: Seq<char>) -> bool
    decreases a.len(),
{
    if a.len() == 0 {
        true
    } else if b.len() == 0 {
        false
    } else if a[0] < b[0] {
        true
    } else if a[0] > b[0] {
        false
    } else {
        lex_le(a.drop_first(), b.drop_first())
    }
}

/// Any two texts are ordered one way or the other.
pub proof fn lemma_lex_total(a: Seq<char>, b: Seq<char>)
    ensures
        lex_le(a, b) || lex_le(b, a),
    decreases a.len(),
{
    if a.len() > 0 && b.len() > 0 && a[0] == b[0] {
        lemma_lex_total(a.drop_first(), b.drop_first());
    }
}

/// The order chains.
pub proof fn lemma_lex_transitive(a: Seq<char>, b: Seq<char>, c: Seq<char>)
    requires
        lex_le(a, b),
        lex_le(b, c),
    ensures
        lex_le(a, c),
    decreases a.len(),
{
    if a.len() > 0 && b.len() > 0 && c.len() > 0 && a[0] == b[0] && b[0] == c[0] {
        lemma_lex_transitive(a.drop_first(), b.drop_first(), c.drop_first());
    }
}

/// Two texts each no later than the other are the same text.
pub proof fn lemma_lex_antisymmetric(a: Seq<char>, b: Seq<char>)
    requires
        lex_le(a, b),
        lex_le(b, a),
    ensures
        a == b,
    decreases a.len(),
{
    if a.len() > 0 && b.len() > 0 {
        assert(a[0] == b[0]);
        lemma_lex_antisymmetric(a.drop_first(), b.drop_first());
        assert(a =~= seq![a[0]] + a.drop_first());
        assert(b =~= seq![b[0]] + b.drop_first());
    }
}

/// Whether `a` comes no later than `b`.
pub fn lex_le_chars(a: &[char], b: &[char]) -> (r: bool)
    ensures
        r == lex_le(a@, b@),
{
    let mut i: usize = 0;
    assert(a@.skip(0) =~= a@);
    assert(b@.skip(0) =~= b@);
    while i < a.len() && i < b.len() && a[i] == b[i]
        invariant
            i <= a@.len(),
            i <= b@.len(),
            lex_le(a@.skip(i as int), b@.skip(i as int)) == lex_le(a@, b@),
        decreases a@.len() - i,
    {
        assert(a@.skip(i as int).drop_first() =~= a@.skip(i + 1));
        assert(b@.skip(i as int).drop_first() =~= b@.skip(i + 1));
        i = i + 1;
    }
    if i == a.len() {
        true
    } else if i == b.len() {
        false
    } else {
        a[i] < b[i]
    }
}

/// Whether a run of texts is in order.
pub open spec fn sorted(s: Seq<Seq<char>>) -> bool {
    forall|i: int, j: int| 0 <= i < j < s.len() ==> lex_le(#[trigger] s[i], #[trigger] s[j])
}

/// The views of a run of strings.
pub open spec fn texts(v: Seq<String>) -> Seq<Seq<char>> {
    Seq::new(v.len(), |i: int| v[i]@)
}

/// The strings in order; the same strings, each as often as before.
pub fn sort_texts(v: Vec<String>) -> (r: Vec<String>)
    ensures
        sorted(texts(r@)),
        texts(r@).to_multiset() == texts(v@).to_multiset(),
{
    broadcast use vstd::seq_lib::group_to_multiset_ensures;

    let mut rest = v;
    let ghost whole = texts(rest@);
    let ghost mut moved: Seq<Seq<char>> = Seq::empty();
    let mut out: Vec<String> = Vec::new();
    assert(texts(out@) =~= Seq::<Seq<char>>::empty());
    assert(moved + texts(rest@) =~= whole);
    while rest.len() > 0
        invariant
            sorted(texts(out@)),
            texts(out@).to_multiset() == moved.to_multiset(),
            moved + texts(rest@) == whole,
        decreases rest@.len(),
    {
        let ghost rest_before = texts(rest@);
        let ghost out_before = texts(out@);
        let x = rest.remove(0);
        let ghost xv = x@;
        assert(texts(rest@) =~= rest_before.drop_first());
        assert(rest_before[0] == xv);
        let xs = crate::text::chars_of(x.as_str());
        let mut k: usize = 0;
        let mut going = true;
        while k < out.len() && going
            invariant
                k <= out@.len(),
                texts(out@) == out_before,
                sorted(out_before),
                xs@ == xv,
                forall|j: int| 0 <= j < k ==> lex_le(#[trigger] out_before[j], xv),
                !going ==> k < out@.len() && !lex_le(out_before[k as int], xv),
            decreases out@.len() - k + (if going { 1int } else { 0int }),
        {
            let ys = crate::text::chars_of(out[k].as_str());
            assert(ys@ == out_before[k as int]);
            if lex_le_chars(ys.as_slice(), xs.as_slice()) {
                k = k + 1;
            } else {
                going = false;
            }
        }
        proof {
            if k < out@.len() {
                lemma_lex_total(out_before[k as int], xv);
            }
        }
        out.insert(k, x);
        assert(texts(out@) =~= out_before.insert(k as int, xv));
        proof {
            let s = texts(out@);
            assert forall|i: int, j: int| 0 <= i < j < s.len() implies lex_le(
                #[trigger] s[i],
                #[trigger] s[j],
            ) by {
                if j < k {
                    assert(s[i] == out_before[i] && s[j] == out_before[j]);
                } else if j == k {
                    assert(s[i] == out_before[i]);
                } else if i == k {
                    assert(s[j] == out_before[j - 1]);
                    if j - 1 > k {
                        assert(lex_le(out_before[k as int], out_before[j - 1]));
                        lemma_lex_transitive(xv, out_before[k as int], out_before[j - 1]);
                    }
                } else if i < k {
                    assert(s[i] == out_before[i] && s[j] == out_before[j - 1]);
                    assert(lex_le(out_before[i], xv));
                    assert(lex_le(xv, out_before[k as int]));
                    if j - 1 > k {
                        assert(lex_le(out_before[k as int], out_before[j - 1]));
                        lemma_lex_transitive(xv, out_before[k as int], out_before[j - 1]);
                    }
                    lemma_lex_transitive(out_before[i], xv, out_before[j - 1]);
                } else {
                    assert(s[i] == out_before[i - 1] && s[j] == out_before[j - 1]);
                }
            }
            vstd::seq_lib::to_multiset_insert(out_before, k as int, xv);
            let old_moved = moved;
            vstd::seq_lib::to_multiset_build(old_moved, xv);
            moved = moved.push(xv);
            assert(texts(out@).to_multiset() == moved.to_multiset());
            assert(moved + texts(rest@) =~= whole);
        }
    }
    assert(texts(rest@) =~= Seq::<Seq<char>>::empty());
    assert(moved =~= whole);
    out
}

} // verus!
