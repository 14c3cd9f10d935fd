use vstd::prelude::*;

use crate::config::BenchConfig;
use crate::contributors::Contribution;

verus! {

broadcast use vstd::seq_lib::group_seq_properties;

/// The sequences held by a sequence of vectors.
pub open spec fn views<T>(v: Seq<Vec<T>>) -> Seq<Seq<T>> {
    v.map_values(|b: Vec<T>| b@)
}

/// Whether position `i` (of `len` contributors) closes a batch of size
/// `batch`: its index, taken as a `u32`, ends a multiple of `batch`, or it
/// is the last contributor.
pub open spec fn closes_batch(i: int, len: int, batch: int) -> bool {
    (i % 0x1_0000_0000) % batch == batch - 1 || i == len - 1
}

/// Position in the flattened sequence at which batch `k` of `r` starts.
pub open spec fn batch_start<T>(r: Seq<Seq<T>>, k: int) -> int {
    r.take(k).flatten().len() as int
}

/// `r` cuts `s` into consecutive non-empty batches, each of which ends at
/// the first position after its start that closes a batch.
pub open spec fn is_batch_split<T>(r: Seq<Seq<T>>, s: Seq<T>, batch: int) -> bool {
    &&& r.flatten() == s
    &&& forall|k: int|
        #![trigger r[k]]
        0 <= k < r.len() ==> {
            &&& r[k].len() > 0
            &&& closes_batch(batch_start(r, k) + r[k].len() - 1, s.len() as int, batch)
            &&& forall|j: int|
                batch_start(r, k) <= j < batch_start(r, k) + r[k].len() - 1 ==> !closes_batch(
                    j,
                    s.len() as int,
                    batch,
                )
        }
}

proof fn lemma_views_push<T>(v: Seq<Vec<T>>, b: Vec<T>)
    ensures
        views(v.push(b)) == views(v).push(b@),
{
    assert(views(v.push(b)) =~= views(v).push(b@));
}

proof fn lemma_split_push<T>(r: Seq<Seq<T>>, s: Seq<T>, batch: int, p: Seq<T>, i: int)
    requires
        0 <= i < s.len(),
        r.flatten() + p == s.take(i + 1),
        forall|k: int|
            #![trigger r[k]]
            0 <= k < r.len() ==> {
                &&& r[k].len() > 0
                &&& closes_batch(batch_start(r, k) + r[k].len() - 1, s.len() as int, batch)
                &&& forall|j: int|
                    batch_start(r, k) <= j < batch_start(r, k) + r[k].len() - 1 ==> !closes_batch(
                        j,
                        s.len() as int,
                        batch,
                    )
            },
        p.len() > 0,
        r.flatten().len() + p.len() == i + 1,
        closes_batch(i, s.len() as int, batch),
        forall|j: int| r.flatten().len() <= j < i ==> !closes_batch(j, s.len() as int, batch),
    ensures
        forall|k: int|
            #![trigger r.push(p)[k]]
            0 <= k < r.push(p).len() ==> {
                &&& r.push(p)[k].len() > 0
                &&& closes_batch(
                    batch_start(r.push(p), k) + r.push(p)[k].len() - 1,
                    s.len() as int,
                    batch,
                )
                &&& forall|j: int|
                    batch_start(r.push(p), k) <= j < batch_start(r.push(p), k) + r.push(p)[k].len()
                        - 1 ==> !closes_batch(j, s.len() as int, batch)
            },
{
    let q = r.push(p);
    assert forall|k: int| 0 <= k < q.len() implies batch_start(q, k) == batch_start(r, k) by {
        assert(q.take(k) =~= r.take(k));
    }
}

/// `s` cut into consecutive pieces of `size` elements, the last of which
/// holds what remains.
pub open spec fn chunks<T>(s: Seq<T>, size: int) -> Seq<Seq<T>> {
    Seq::new(
        ((s.len() + size - 1) / size) as nat,
        |k: int| s.subrange(k * size, vstd::math::min((k + 1) * size, s.len() as int)),
    )
}

/// Each batch of a flattened sequence is the slice of the flattened
/// sequence that starts at the batch's start.
proof fn lemma_batch_slices<T>(r: Seq<Seq<T>>, k: int)
    requires
        0 <= k < r.len(),
    ensures
        batch_start(r, k + 1) == batch_start(r, k) + r[k].len(),
        batch_start(r, k) + r[k].len() <= r.flatten().len(),
        r.flatten().subrange(batch_start(r, k), batch_start(r, k) + r[k].len()) == r[k],
{
    let a = r.take(k);
    assert(r.take(k + 1) =~= a.push(r[k]));
    a.lemma_flatten_push(r[k]);
    assert(r =~= r.take(k + 1) + r.skip(k + 1));
    vstd::seq_lib::lemma_flatten_concat(r.take(k + 1), r.skip(k + 1));
    let f = r.flatten();
    assert(f =~= a.flatten() + r[k] + r.skip(k + 1).flatten());
    assert(f.subrange(batch_start(r, k), batch_start(r, k) + r[k].len()) =~= r[k]);
}

/// `x` lies in `[q*d, q*d + d)`, so its remainder modulo `d` is `x - q*d`.
proof fn lemma_mod_in_block(x: int, q: int, d: int)
    requires
        d > 0,
        q * d <= x < q * d + d,
    ensures
        x % d == x - q * d,
        x / d == q,
{
    vstd::arithmetic::div_mod::lemma_fundamental_div_mod_converse(x, d, q, x - q * d);
}

/// For at most `2^32` elements, batch `k` of a batch split starts at
/// `k * batch`; it holds `batch` elements, or the rest of the sequence if
/// it is the last batch.
proof fn lemma_batch_shape<T>(r: Seq<Seq<T>>, s: Seq<T>, b: int, k: int)
    requires
        is_batch_split(r, s, b),
        b > 0,
        s.len() <= 0x1_0000_0000,
        0 <= k < r.len(),
    ensures
        batch_start(r, k) == k * b,
        k + 1 < r.len() ==> r[k].len() == b,
        k + 1 == r.len() ==> r[k].len() == s.len() - k * b && r[k].len() <= b,
        k + 1 < r.len() ==> (k + 1) * b < s.len(),
    decreases k,
{
    let len = s.len() as int;
    if k > 0 {
        lemma_batch_shape(r, s, b, k - 1);
        lemma_batch_slices(r, k - 1);
        assert(k * b == (k - 1) * b + b) by (nonlinear_arith);
    } else {
        assert(r.take(0) =~= Seq::<Seq<T>>::empty());
    }
    lemma_batch_slices(r, k);
    let start = batch_start(r, k);
    let e = start + r[k].len() - 1;
    let c = k * b + b - 1;
    assert((k + 1) * b == k * b + b) by (nonlinear_arith);
    assert(r[k].len() > 0);
    assert(closes_batch(e, len, b));
    if k + 1 < r.len() {
        lemma_batch_slices(r, k + 1);
        assert(r[k + 1].len() > 0);
    }
    if c < len - 1 {
        lemma_mod_in_block(c, k, b);
        assert(c % 0x1_0000_0000 == c);
        assert(closes_batch(c, len, b));
        if e < c {
            lemma_mod_in_block(e, k, b);
            assert(e % 0x1_0000_0000 == e);
            assert(!closes_batch(e, len, b));
        }
        assert(e == c);
        if k + 1 == r.len() {
            assert(batch_start(r, k + 1) == r.flatten().len()) by {
                assert(r.take(k + 1) =~= r);
            }
        }
    } else {
        if e < len - 1 {
            lemma_mod_in_block(e, k, b);
            assert(e % 0x1_0000_0000 == e);
        }
        assert(e == len - 1);
    }
}

/// Law: while there are at most `2^32` contributors (so that every index
/// fits in a `u32`), the insertion batches are exactly the consecutive
/// chunks of `batch` contributors, the last holding the remainder; hence
/// there are `ceil(len / batch)` of them and none exceeds `batch`.
pub proof fn lemma_batches_are_chunks<T>(r: Seq<Seq<T>>, s: Seq<T>, batch: int)
    requires
        is_batch_split(r, s, batch),
        batch > 0,
        s.len() <= 0x1_0000_0000,
    ensures
        r == chunks(s, batch),
{
    let len = s.len() as int;
    let m = r.len() as int;
    if m == 0 {
        assert(r =~= Seq::<Seq<T>>::empty());
        assert(len == 0);
        assert((len + batch - 1) / batch == 0) by {
            lemma_mod_in_block(len + batch - 1, 0, batch);
        }
    } else {
        lemma_batch_shape(r, s, batch, m - 1);
        assert(m * batch == (m - 1) * batch + batch) by (nonlinear_arith);
        assert((len + batch - 1) / batch == m) by {
            lemma_mod_in_block(len + batch - 1, m, batch);
        }
    }
    assert forall|k: int| 0 <= k < m implies r[k] == chunks(s, batch)[k] by {
        lemma_batch_shape(r, s, batch, k);
        lemma_batch_slices(r, k);
        assert((k + 1) * batch == k * batch + batch) by (nonlinear_arith);
    }
    assert(r =~= chunks(s, batch));
}

/// Law: while there are at most `2^32` contributors, no insertion call
/// receives more than `batch` contributors (the most the pallet accepts in
/// one call), none is empty, and `ceil(len / batch)` calls are made.
pub proof fn lemma_batches_within_limit<T>(r: Seq<Seq<T>>, s: Seq<T>, batch: int)
    requires
        is_batch_split(r, s, batch),
        batch > 0,
        s.len() <= 0x1_0000_0000,
    ensures
        r.len() == (s.len() + batch - 1) / batch,
        forall|k: int| 0 <= k < r.len() ==> 0 < #[trigger] r[k].len() <= batch,
{
    lemma_batches_are_chunks(r, s, batch);
    assert forall|k: int| 0 <= k < r.len() implies 0 < #[trigger] r[k].len() <= batch by {
        lemma_batch_shape(r, s, batch, k);
    }
}

/// The `initialize_reward_vec` calls made when inserting `contributors`:
/// each call receives the contributors gathered since the previous one,
/// and a call is made after every contributor whose index, taken as a
/// `u32`, ends a multiple of the batch size, and after the last one.
pub fn insert_contributors(cfg: &BenchConfig, contributors: &Vec<Contribution>) -> (calls: Vec<
    Vec<Contribution>,
>)
    requires
        contributors.len() > 0 ==> cfg.max_init_contributors > 0,
    ensures
        is_batch_split(views(calls@), contributors@, cfg.max_init_contributors as int),
        cfg.max_init_contributors > 0 && contributors.len() <= 0x1_0000_0000 ==> views(calls@)
            == chunks(contributors@, cfg.max_init_contributors as int),
{
    let batch = cfg.max_batch_contributors();
    let len = contributors.len();
    let mut calls: Vec<Vec<Contribution>> = Vec::new();
    let mut pending: Vec<Contribution> = Vec::new();
    let ghost s = contributors@;
    let ghost b = batch as int;
    for i in 0..len
        invariant
            len == s.len(),
            s == contributors@,
            b == batch as int,
            len > 0 ==> batch > 0,
            views(calls@).flatten() + pending@ == s.take(i as int),
            forall|j: int|
                views(calls@).flatten().len() <= j < i ==> !closes_batch(j, len as int, b),
            forall|k: int|
                #![trigger views(calls@)[k]]
                0 <= k < views(calls@).len() ==> {
                    &&& views(calls@)[k].len() > 0
                    &&& closes_batch(
                        batch_start(views(calls@), k) + views(calls@)[k].len() - 1,
                        len as int,
                        b,
                    )
                    &&& forall|j: int|
                        batch_start(views(calls@), k) <= j < batch_start(views(calls@), k)
                            + views(calls@)[k].len() - 1 ==> !closes_batch(j, len as int, b)
                },
    {
        let ghost old_calls = calls@;
        let ghost old_pending = pending@;
        pending.push(contributors[i]);
        assert(s.take(i + 1) =~= s.take(i as int).push(s[i as int]));
        let wide: u64 = i as u64;
        let low: u32 = (wide % 0x1_0000_0000u64) as u32;
        if low % batch == batch - 1 || i == len - 1 {
            assert(closes_batch(i as int, len as int, b));
            let ghost p = pending@;
            proof {
                lemma_split_push(views(old_calls), s, b, p, i as int);
                lemma_views_push(old_calls, pending);
                views(old_calls).lemma_flatten_push(p);
            }
            calls.push(pending);
            pending = Vec::new();
            assert(views(calls@) == views(old_calls).push(p));
            assert(views(calls@).flatten() == views(old_calls).flatten() + p);
            assert(views(calls@).flatten() + pending@ =~= s.take(i + 1));
        } else {
            assert(!closes_batch(i as int, len as int, b));
        }
    }
    proof {
        assert(s.take(len as int) =~= s);
        if len > 0 {
            assert(closes_batch(len - 1, len as int, b));
        }
        assert(pending@.len() == 0);
        assert(views(calls@).flatten() =~= s);
        if b > 0 && len <= 0x1_0000_0000 {
            lemma_batches_are_chunks(views(calls@), s, b);
        }
    }
    calls
}

} // verus!
