//! Stable ordering of records by a text key.
use vstd::prelude::*;
use crate::text::{chars_lt, lex_lt, lemma_lex_lt_transitive};

verus! {

broadcast use vstd::seq_lib::group_to_multiset_ensures;

/// A record ordered by a text field.
pub trait TextKeyed {
    /// The characters of the key.
    spec fn text_key(&self) -> Seq<char>;

    /// The key's characters, computed.
    fn key_chars(&self) -> (r: Vec<char>)
        ensures
            r@ == self.text_key();
}

/// `a` may stand before `b`: its key is not smaller (descending) or not
/// larger (ascending).
pub open spec fn in_order<T: TextKeyed>(a: T, b: T, descending: bool) -> bool {
    if descending {
        !lex_lt(a.text_key(), b.text_key())
    } else {
        !lex_lt(b.text_key(), a.text_key())
    }
}

/// Every record stands in order before every later one.
pub open spec fn sorted_by_key<T: TextKeyed>(s: Seq<T>, descending: bool) -> bool {
    forall|i: int, j: int| 0 <= i < j < s.len() ==> in_order(s[i], s[j], descending)
}

/// The records of `s` whose key is `k`, in order.
pub open spec fn with_key<T: TextKeyed>(s: Seq<T>, k: Seq<char>) -> Seq<T>
    decreases s.len(),
{
    if s.len() == 0 {
        s
    } else if s.last().text_key() == k {
        with_key(s.drop_last(), k).push(s.last())
    } else {
        with_key(s.drop_last(), k)
    }
}

proof fn lemma_with_key_concat<T: TextKeyed>(a: Seq<T>, b: Seq<T>, k: Seq<char>)
    ensures
        with_key(a + b, k) == with_key(a, k) + with_key(b, k),
    decreases b.len(),
{
    if b.len() == 0 {
        assert(a + b =~= a);
        assert(with_key(a, k) + with_key(b, k) =~= with_key(a, k));
    } else {
        assert((a + b).drop_last() =~= a + b.drop_last());
        lemma_with_key_concat(a, b.drop_last(), k);
        assert((a + b).last() == b.last());
        if b.last().text_key() == k {
            assert(with_key(a, k) + with_key(b.drop_last(), k).push(b.last()) =~= (with_key(a, k)
                + with_key(b.drop_last(), k)).push(b.last()));
        }
    }
}

proof fn lemma_with_key_none<T: TextKeyed>(s: Seq<T>, k: Seq<char>)
    requires
        forall|i: int| 0 <= i < s.len() ==> s[i].text_key() != k,
    ensures
        with_key(s, k) == Seq::<T>::empty(),
    decreases s.len(),
{
    if s.len() > 0 {
        lemma_with_key_none(s.drop_last(), k);
    }
}

/// Taking out the record at `b`, the first with its key, takes the first
/// record of that key's run and leaves the other keys' runs as they are.
proof fn lemma_with_key_remove<T: TextKeyed>(s: Seq<T>, b: int, k: Seq<char>)
    requires
        0 <= b < s.len(),
        forall|m: int| 0 <= m < b ==> s[m].text_key() != s[b].text_key(),
    ensures
        k == s[b].text_key() ==> with_key(s, k) == seq![s[b]] + with_key(s.remove(b), k),
        k != s[b].text_key() ==> with_key(s, k) == with_key(s.remove(b), k),
{
    let pre = s.take(b);
    let post = s.skip(b + 1);
    assert(s =~= pre + (seq![s[b]] + post));
    assert(s.remove(b) =~= pre + post);
    lemma_with_key_concat(pre, seq![s[b]] + post, k);
    lemma_with_key_concat(seq![s[b]], post, k);
    lemma_with_key_concat(pre, post, k);
    assert(seq![s[b]].drop_last() =~= Seq::<T>::empty());
    assert(with_key(Seq::<T>::empty(), k) == Seq::<T>::empty());
    assert(seq![s[b]].last() == s[b]);
    if k == s[b].text_key() {
        lemma_with_key_none(pre, k);
        assert(with_key(pre, k) + with_key(post, k) =~= with_key(post, k));
        assert(with_key(seq![s[b]], k) =~= seq![s[b]]);
        assert(with_key(pre, k) + (seq![s[b]] + with_key(post, k)) =~= seq![s[b]] + with_key(post, k));
    } else {
        assert(with_key(seq![s[b]], k) =~= Seq::<T>::empty());
        assert(with_key(seq![s[b]], k) + with_key(post, k) =~= with_key(post, k));
    }
}

/// A record with no earlier record of the same key heads that key's run.
pub proof fn lemma_first_with_key<T: TextKeyed>(s: Seq<T>, i: int)
    requires
        0 <= i < s.len(),
        forall|j: int| 0 <= j < i ==> s[j].text_key() != s[i].text_key(),
    ensures
        with_key(s, s[i].text_key()).len() > 0,
        with_key(s, s[i].text_key())[0] == s[i],
{
    lemma_with_key_remove(s, i, s[i].text_key());
}

proof fn lemma_lex_lt_irreflexive(a: Seq<char>)
    ensures
        !lex_lt(a, a),
    decreases a.len(),
{
    if a.len() > 0 {
        lemma_lex_lt_irreflexive(a.drop_first());
    }
}

/// Sorts records by key, ascending or descending: the result holds the same
/// records, each in order with every later one, and records with equal keys
/// keep their relative order.
pub fn sort_by_text_key<T: TextKeyed>(items: Vec<T>, descending: bool) -> (r: Vec<T>)
    ensures
        r@.to_multiset() == items@.to_multiset(),
        sorted_by_key(r@, descending),
        forall|k: Seq<char>| #[trigger] with_key(r@, k) == with_key(items@, k),
{
    let ghost all = items@;
    let mut rem = items;
    let mut out: Vec<T> = Vec::new();
    assert(out@.to_multiset().add(rem@.to_multiset()) =~= all.to_multiset());
    assert forall|k: Seq<char>| #[trigger] with_key(all, k) == with_key(out@, k) + with_key(rem@, k) by {
        assert(with_key(out@, k) + with_key(rem@, k) =~= with_key(rem@, k));
    }
    while rem.len() > 0
        invariant
            out@.to_multiset().add(rem@.to_multiset()) == all.to_multiset(),
            sorted_by_key(out@, descending),
            forall|i: int, j: int|
                0 <= i < out@.len() && 0 <= j < rem@.len() ==> in_order(
                    out@[i],
                    rem@[j],
                    descending,
                ),
            forall|k: Seq<char>| #[trigger] with_key(all, k) == with_key(out@, k) + with_key(rem@, k),
        decreases rem@.len(),
    {
        let mut b: usize = 0;
        let mut best_key = rem[0].key_chars();
        let mut k: usize = 1;
        proof {
            lemma_lex_lt_irreflexive(rem@[0].text_key());
        }
        while k < rem.len()
            invariant
                b < k <= rem@.len(),
                best_key@ == rem@[b as int].text_key(),
                forall|m: int|
                    0 <= m < k ==> in_order(#[trigger] rem@[b as int], rem@[m], descending),
                forall|m: int| 0 <= m < b ==> rem@[m].text_key() != rem@[b as int].text_key(),
            decreases rem@.len() - k,
        {
            let key = rem[k].key_chars();
            let better = if descending {
                chars_lt(best_key.as_slice(), key.as_slice())
            } else {
                chars_lt(key.as_slice(), best_key.as_slice())
            };
            if better {
                proof {
                    let kb = rem@[b as int].text_key();
                    let kk = rem@[k as int].text_key();
                    lemma_lex_lt_irreflexive(kk);
                    assert forall|m: int| 0 <= m < k implies rem@[m].text_key() != kk by {
                        assert(in_order(rem@[b as int], rem@[m], descending));
                        if rem@[m].text_key() == kk {
                            if descending {
                                lemma_lex_lt_transitive(kb, kk, kk);
                            } else {
                                lemma_lex_lt_transitive(kk, kk, kb);
                            }
                        }
                    }
                    assert forall|m: int| 0 <= m < k + 1 implies in_order(
                        #[trigger] rem@[k as int],
                        rem@[m],
                        descending,
                    ) by {
                        let km = rem@[m].text_key();
                        if m < k {
                            assert(in_order(rem@[b as int], rem@[m], descending));
                            if descending && lex_lt(kk, km) {
                                lemma_lex_lt_transitive(kb, kk, km);
                            }
                            if !descending && lex_lt(km, kk) {
                                lemma_lex_lt_transitive(km, kk, kb);
                            }
                        }
                    }
                }
                b = k;
                best_key = key;
            }
            k = k + 1;
        }
        let ghost before_rem = rem@;
        let ghost before_out = out@;
        let x = rem.remove(b);
        out.push(x);
        proof {
            assert forall|kk: Seq<char>| #[trigger] with_key(all, kk) == with_key(out@, kk) + with_key(
                rem@,
                kk,
            ) by {
                lemma_with_key_remove(before_rem, b as int, kk);
                assert(out@.drop_last() =~= before_out);
                if kk == x.text_key() {
                    assert(with_key(out@, kk) == with_key(before_out, kk).push(x));
                    assert(with_key(before_out, kk).push(x) + with_key(rem@, kk) =~= with_key(
                        before_out,
                        kk,
                    ) + (seq![x] + with_key(rem@, kk)));
                } else {
                    assert(with_key(out@, kk) == with_key(before_out, kk));
                }
            }
            assert(before_rem.to_multiset().count(x) > 0) by {
                assert(before_rem.contains(x)) by {
                    assert(before_rem[b as int] == x);
                }
            }
            assert(out@.to_multiset().add(rem@.to_multiset()) =~= before_out.to_multiset().add(
                before_rem.to_multiset(),
            ));
            assert forall|j: int| 0 <= j < rem@.len() implies in_order(
                x,
                #[trigger] rem@[j],
                descending,
            ) by {
                if j < b {
                    assert(rem@[j] == before_rem[j]);
                    assert(in_order(before_rem[b as int], before_rem[j], descending));
                } else {
                    assert(rem@[j] == before_rem[j + 1]);
                    assert(in_order(before_rem[b as int], before_rem[j + 1], descending));
                }
            }
            assert forall|i: int, j: int|
                0 <= i < out@.len() && 0 <= j < rem@.len() implies in_order(
                out@[i],
                rem@[j],
                descending,
            ) by {
                if i < before_out.len() {
                    if j < b {
                        assert(rem@[j] == before_rem[j]);
                    } else {
                        assert(rem@[j] == before_rem[j + 1]);
                    }
                }
            }
            assert forall|i: int, j: int| 0 <= i < j < out@.len() implies in_order(
                out@[i],
                out@[j],
                descending,
            ) by {
                if j == before_out.len() {
                    assert(out@[j] == before_rem[b as int]);
                }
            }
        }
    }
    assert forall|k: Seq<char>| #[trigger] with_key(out@, k) == with_key(items@, k) by {
        assert(rem@.len() == 0);
        assert(with_key(rem@, k) =~= Seq::<T>::empty());
        assert(with_key(out@, k) + with_key(rem@, k) =~= with_key(out@, k));
    }
    out
}

} // verus!
