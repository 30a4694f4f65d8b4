use vstd::prelude::*;
use vstd::utf8::encode_utf8;

verus! {

/// Strict lexicographic order on byte strings, as `str` orders its values.
pub open spec fn lex_less(a: Seq<u8>, b: Seq<u8>) -> bool
    decreases a.len(),
{
    if b.len() == 0 {
        false
    } else if a.len() == 0 {
        true
    } else if a[0] != b[0] {
        a[0] < b[0]
    } else {
        lex_less(a.drop_first(), b.drop_first())
    }
}

/// The sort key of a timestamp: its UTF-8 bytes.
pub open spec fn time_key(t: String) -> Seq<u8> {
    encode_utf8(t@)
}

proof fn lemma_lex_asymmetric(a: Seq<u8>, b: Seq<u8>)
    ensures
        lex_less(a, b) ==> !lex_less(b, a),
    decreases a.len(),
{
    if a.len() > 0 && b.len() > 0 && a[0] == b[0] {
        lemma_lex_asymmetric(a.drop_first(), b.drop_first());
    }
}

proof fn lemma_lex_le_transitive(a: Seq<u8>, b: Seq<u8>, c: Seq<u8>)
    requires
        !lex_less(b, a),
        !lex_less(c, b),
    ensures
        !lex_less(c, a),
    decreases a.len(),
{
    if a.len() > 0 && b.len() > 0 && c.len() > 0 && a[0] == b[0] && b[0] == c[0] {
        lemma_lex_le_transitive(a.drop_first(), b.drop_first(), c.drop_first());
    }
}

fn bytes_less(a: &[u8], b: &[u8]) -> (r: bool)
    ensures
        r == lex_less(a@, b@),
{
    let mut i: usize = 0;
    assert(a@.skip(0) == a@);
    assert(b@.skip(0) == b@);
    while i < a.len() && i < b.len() && a[i] == b[i]
        invariant
            i <= a@.len(),
            i <= b@.len(),
            lex_less(a@, b@) == lex_less(a@.skip(i as int), b@.skip(i as int)),
        decreases a@.len() - i,
    {
        assert(a@.skip(i as int).drop_first() == a@.skip(i as int + 1));
        assert(b@.skip(i as int).drop_first() == b@.skip(i as int + 1));
        i = i + 1;
    }
    if i < b.len() {
        if i < a.len() {
            a[i] < b[i]
        } else {
            true
        }
    } else {
        false
    }
}

/// `order` lists the positions of `times` from the earliest to the latest,
/// positions of equal timestamps in their original order.
pub open spec fn chronological(times: Seq<String>, order: Seq<usize>) -> bool {
    &&& forall|a: int, b: int|
        0 <= a < b < order.len() ==> !lex_less(
            #[trigger] time_key(times[order[b] as int]),
            #[trigger] time_key(times[order[a] as int]),
        )
    &&& forall|a: int, b: int|
        0 <= a < b < order.len() && !lex_less(
            time_key(times[order[a] as int]),
            time_key(times[order[b] as int]),
        ) ==> #[trigger] order[a] < #[trigger] order[b]
}

/// `order` holds each position below `n` exactly once.
pub open spec fn is_permutation(order: Seq<usize>, n: nat) -> bool {
    &&& order.len() == n
    &&& forall|a: int| 0 <= a < order.len() ==> #[trigger] order[a] < n
    &&& forall|a: int, b: int| 0 <= a < b < order.len() ==> #[trigger] order[a] != #[trigger] order[b]
}

/// The order in which to show messages stamped with `times`: earliest
/// first, messages with equal stamps in the order they came in.
pub fn chronological_order(times: &Vec<String>) -> (r: Vec<usize>)
    ensures
        is_permutation(r@, times@.len() as nat),
        chronological(times@, r@),
{
    let mut order: Vec<usize> = Vec::new();
    let mut i: usize = 0;
    while i < times.len()
        invariant
            i <= times@.len(),
            is_permutation(order@, i as nat),
            chronological(times@, order@),
        decreases times@.len() - i,
    {
        let key = times[i].as_str().as_bytes();
        let mut p: usize = order.len();
        while p > 0 && bytes_less(key, times[order[p - 1]].as_str().as_bytes())
            invariant
                p <= order@.len(),
                order@.len() == i,
                i < times@.len(),
                key@ == time_key(times@[i as int]),
                is_permutation(order@, i as nat),
                forall|q: int| p <= q < order@.len() ==> lex_less(
                    time_key(times@[i as int]),
                    #[trigger] time_key(times@[order@[q] as int]),
                ),
            decreases p,
        {
            p = p - 1;
        }
        let ghost old_order = order@;
        proof {
            assert forall|a: int| 0 <= a < p implies !lex_less(
                time_key(times@[i as int]),
                #[trigger] time_key(times@[old_order[a] as int]),
            ) by {
                if p > 0 {
                    let last = time_key(times@[old_order[p - 1] as int]);
                    assert(!lex_less(time_key(times@[i as int]), last));
                    if a < p - 1 {
                        lemma_lex_le_transitive(
                            time_key(times@[old_order[a] as int]),
                            last,
                            time_key(times@[i as int]),
                        );
                    }
                }
            }
            assert forall|q: int| p <= q < old_order.len() implies !lex_less(
                #[trigger] time_key(times@[old_order[q] as int]),
                time_key(times@[i as int]),
            ) by {
                lemma_lex_asymmetric(
                    time_key(times@[i as int]),
                    time_key(times@[old_order[q] as int]),
                );
            }
        }
        order.insert(p, i);
        proof {
            let n = order@;
            assert(n == old_order.insert(p as int, i));
            assert forall|a: int| 0 <= a < n.len() implies #[trigger] n[a] < i + 1 by {
                if a > p {
                    assert(n[a] == old_order[a - 1]);
                }
            }
            assert forall|a: int, b: int| 0 <= a < b < n.len() implies #[trigger] n[a]
                != #[trigger] n[b] by {
                if a < p && b > p {
                    assert(n[b] == old_order[b - 1]);
                } else if a > p {
                    assert(n[a] == old_order[a - 1]);
                    assert(n[b] == old_order[b - 1]);
                } else if a == p {
                    assert(n[b] == old_order[b - 1]);
                }
            }
            assert forall|a: int, b: int| 0 <= a < b < n.len() implies !lex_less(
                #[trigger] time_key(times@[n[b] as int]),
                #[trigger] time_key(times@[n[a] as int]),
            ) by {
                if a < p && b > p {
                    assert(n[b] == old_order[b - 1]);
                    lemma_lex_le_transitive(
                        time_key(times@[old_order[a] as int]),
                        time_key(times@[i as int]),
                        time_key(times@[old_order[b - 1] as int]),
                    );
                } else if a > p {
                    assert(n[a] == old_order[a - 1]);
                    assert(n[b] == old_order[b - 1]);
                } else if a == p {
                    assert(n[b] == old_order[b - 1]);
                }
            }
            assert forall|a: int, b: int|
                0 <= a < b < n.len() && !lex_less(
                    time_key(times@[n[a] as int]),
                    time_key(times@[n[b] as int]),
                ) implies #[trigger] n[a] < #[trigger] n[b] by {
                if a < p && b > p {
                    assert(n[b] == old_order[b - 1]);
                } else if a > p {
                    assert(n[a] == old_order[a - 1]);
                    assert(n[b] == old_order[b - 1]);
                } else if a == p {
                    assert(n[b] == old_order[b - 1]);
                }
            }
        }
        i = i + 1;
    }
    order
}

} // verus!
