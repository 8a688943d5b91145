use vstd::prelude::*;

verus! {

/// Bit pattern (`f64::to_bits`) of the similarity 0.75 that gate 2 must
/// exceed.
pub const GATE_SIMILARITY_BITS: u64 = 0x3FE8_0000_0000_0000;

/// Bit pattern (`f64::to_bits`) of the similarity 0.01 that a search hit must
/// exceed.
pub const SEARCH_SIMILARITY_BITS: u64 = 0x3F84_7AE1_47AE_147B;

/// Whether the bit pattern of an `f64` is a NaN.
pub open spec fn is_nan_bits(bits: u64) -> bool {
    (bits / 0x10_0000_0000_0000) % 0x800 == 0x7FF && bits % 0x10_0000_0000_0000 != 0
}

/// Rank of an `f64` given by its bit pattern, in the order of the floats:
/// for two values that are not NaN, `a < b` exactly when
/// `score_order(a) < score_order(b)`, and `a == b` (`-0.0 == 0.0` included)
/// exactly when their ranks are equal. A NaN gets rank 0, below every other
/// value, so that it is never above a threshold.
pub open spec fn score_order(bits: u64) -> nat {
    if is_nan_bits(bits) {
        0
    } else if bits < 0x8000_0000_0000_0000 {
        (0x8000_0000_0000_0000 + bits) as nat
    } else {
        (0x1_0000_0000_0000_0000 - bits) as nat
    }
}

/// Whether a similarity exceeds a threshold (both as `f64` bit patterns).
pub open spec fn exceeds(bits: u64, threshold: u64) -> bool {
    score_order(bits) > score_order(threshold)
}

/// `score_order`, computed.
pub fn score_rank(bits: u64) -> (rank: u64)
    ensures
        rank == score_order(bits),
{
    let exponent = (bits / 0x10_0000_0000_0000) % 0x800;
    let mantissa = bits % 0x10_0000_0000_0000;
    if exponent == 0x7FF && mantissa != 0 {
        0
    } else if bits < 0x8000_0000_0000_0000 {
        0x8000_0000_0000_0000 + bits
    } else {
        (u64::MAX - bits) + 1
    }
}

/// Whether entry `i` is the one that gate 2 picks: its similarity exceeds the
/// gate threshold, no similarity above the threshold is higher, and every
/// earlier one above the threshold is strictly lower (the first of the best).
pub open spec fn is_best_similar(scores: Seq<u64>, i: int) -> bool {
    &&& 0 <= i < scores.len()
    &&& exceeds(scores[i], GATE_SIMILARITY_BITS)
    &&& forall|j: int|
        0 <= j < scores.len() && exceeds(scores[j], GATE_SIMILARITY_BITS) ==> score_order(
            scores[j],
        ) <= score_order(scores[i])
    &&& forall|j: int|
        0 <= j < i && exceeds(scores[j], GATE_SIMILARITY_BITS) ==> score_order(scores[j])
            < score_order(scores[i])
}

/// True when a similarity is above the threshold of gate 2.
pub open spec fn any_similar(scores: Seq<u64>) -> bool {
    exists|j: int| 0 <= j < scores.len() && exceeds(scores[j], GATE_SIMILARITY_BITS)
}

/// Gate 2's choice among the similarities of the entries (as `f64` bit
/// patterns): the first entry with the highest similarity above 0.75, if any.
pub fn best_similar(scores: &Vec<u64>) -> (best: Option<usize>)
    ensures
        match best {
            Some(i) => is_best_similar(scores@, i as int),
            None => !any_similar(scores@),
        },
{
    let threshold = score_rank(GATE_SIMILARITY_BITS);
    let mut best: Option<usize> = None;
    let mut best_rank: u64 = 0;
    let mut i: usize = 0;
    while i < scores.len()
        invariant
            i <= scores@.len(),
            threshold == score_order(GATE_SIMILARITY_BITS),
            match best {
                Some(b) => {
                    &&& b < i
                    &&& best_rank == score_order(scores@[b as int])
                    &&& exceeds(scores@[b as int], GATE_SIMILARITY_BITS)
                    &&& forall|j: int|
                        0 <= j < i && exceeds(scores@[j], GATE_SIMILARITY_BITS) ==> score_order(
                            scores@[j],
                        ) <= best_rank
                    &&& forall|j: int|
                        0 <= j < b && exceeds(scores@[j], GATE_SIMILARITY_BITS) ==> score_order(
                            scores@[j],
                        ) < best_rank
                },
                None => forall|j: int| 0 <= j < i ==> !exceeds(scores@[j], GATE_SIMILARITY_BITS),
            },
        decreases scores@.len() - i,
    {
        let rank = score_rank(scores[i]);
        if rank > threshold {
            match best {
                Some(_) if rank <= best_rank => {},
                _ => {
                    best = Some(i);
                    best_rank = rank;
                },
            }
        }
        i = i + 1;
    }
    best
}

/// Search order of two entries by their rounded similarity ranks: the higher
/// rank first, and among equal ranks the earlier entry first.
pub open spec fn ranks_before(rounded: Seq<u64>, a: int, b: int) -> bool {
    score_order(rounded[a]) > score_order(rounded[b]) || (score_order(rounded[a]) == score_order(
        rounded[b],
    ) && a < b)
}

/// Whether entry `i` is a search hit: its similarity exceeds 0.01.
pub open spec fn is_hit(raw: Seq<u64>, i: int) -> bool {
    0 <= i < raw.len() && exceeds(raw[i], SEARCH_SIMILARITY_BITS)
}

/// Whether `ranked` lists, without repeats and in search order, hits of
/// `raw` ordered by `rounded`.
pub open spec fn is_ordered_hits(raw: Seq<u64>, rounded: Seq<u64>, ranked: Seq<usize>) -> bool {
    &&& forall|p: int| 0 <= p < ranked.len() ==> is_hit(raw, #[trigger] ranked[p] as int)
    &&& forall|p: int, q: int|
        0 <= p < q < ranked.len() ==> ranks_before(rounded, ranked[p] as int, ranked[q] as int)
}

/// The ranking of a vector search: the hits (similarity above 0.01), by
/// rounded similarity from high to low, equal ones in entry order (a stable
/// sort), cut to `top_k`. `raw` and `rounded` hold, per entry, the
/// similarity and the similarity rounded to three decimals, as `f64` bit
/// patterns.
pub open spec fn is_search_ranking(raw: Seq<u64>, rounded: Seq<u64>, top_k: int, ranked: Seq<usize>) -> bool {
    &&& is_ordered_hits(raw, rounded, ranked)
    &&& ranked.len() <= top_k
    &&& forall|i: int|
        is_hit(raw, i) && !ranked.contains(i as usize) ==> {
            &&& ranked.len() == top_k
            &&& forall|p: int| 0 <= p < ranked.len() ==> ranks_before(rounded, #[trigger] ranked[p] as int, i)
        }
}

/// Ranks the entries of a vector search: the indices of the entries whose
/// similarity exceeds 0.01, highest rounded similarity first, equal ones in
/// entry order, at most `top_k` of them.
pub fn rank_hits(raw: &Vec<u64>, rounded: &Vec<u64>, top_k: usize) -> (ranked: Vec<usize>)
    requires
        raw@.len() == rounded@.len(),
    ensures
        is_search_ranking(raw@, rounded@, top_k as int, ranked@),
{
    let threshold = score_rank(SEARCH_SIMILARITY_BITS);
    let mut ranked: Vec<usize> = Vec::new();
    let mut i: usize = 0;
    while i < raw.len()
        invariant
            raw@.len() == rounded@.len(),
            i <= raw@.len(),
            threshold == score_order(SEARCH_SIMILARITY_BITS),
            is_ordered_hits(raw@, rounded@, ranked@),
            forall|p: int| 0 <= p < ranked@.len() ==> #[trigger] ranked@[p] < i,
            forall|j: int| 0 <= j < i && is_hit(raw@, j) ==> ranked@.contains(j as usize),
        decreases raw@.len() - i,
    {
        if score_rank(raw[i]) > threshold {
            let rank = score_rank(rounded[i]);
            let mut pos: usize = 0;
            while pos < ranked.len() && score_rank(rounded[ranked[pos]]) >= rank
                invariant
                    raw@.len() == rounded@.len(),
                    i < raw@.len(),
                    rank == score_order(rounded@[i as int]),
                    pos <= ranked@.len(),
                    forall|p: int| 0 <= p < ranked@.len() ==> #[trigger] ranked@[p] < i,
                    is_ordered_hits(raw@, rounded@, ranked@),
                    forall|p: int| 0 <= p < pos ==> ranks_before(rounded@, #[trigger] ranked@[p] as int, i as int),
                decreases ranked@.len() - pos,
            {
                pos = pos + 1;
            }
            let ghost old_ranked = ranked@;
            proof {
                assert forall|p: int| pos <= p < old_ranked.len() implies ranks_before(
                    rounded@,
                    i as int,
                    #[trigger] old_ranked[p] as int,
                ) by {
                    assert(score_order(rounded@[old_ranked[pos as int] as int]) < rank);
                    if p > pos {
                        assert(ranks_before(rounded@, old_ranked[pos as int] as int, old_ranked[p] as int));
                    }
                }
            }
            ranked.insert(pos, i);
            assert(ranked@[pos as int] == i);
            assert forall|p: int, q: int| 0 <= p < q < ranked@.len() implies ranks_before(
                rounded@,
                ranked@[p] as int,
                ranked@[q] as int,
            ) by {
                if p < pos && q > pos {
                    assert(ranked@[q] == old_ranked[q - 1]);
                    assert(ranks_before(rounded@, old_ranked[p] as int, i as int));
                    assert(ranks_before(rounded@, i as int, old_ranked[q - 1] as int));
                } else if q > pos && p > pos {
                    assert(ranked@[p] == old_ranked[p - 1]);
                    assert(ranked@[q] == old_ranked[q - 1]);
                } else if q < pos {
                } else if p == pos {
                    assert(ranked@[q] == old_ranked[q - 1]);
                } else {
                    assert(ranks_before(rounded@, old_ranked[p] as int, i as int));
                }
            }
            assert forall|p: int| 0 <= p < ranked@.len() implies is_hit(raw@, #[trigger] ranked@[p] as int) by {
                if p < pos {
                } else if p > pos {
                    assert(ranked@[p] == old_ranked[p - 1]);
                }
            }
            assert forall|j: int| 0 <= j < i && is_hit(raw@, j) implies ranked@.contains(j as usize) by {
                assert(old_ranked.contains(j as usize));
                let p = choose|p: int| 0 <= p < old_ranked.len() && old_ranked[p] == j as usize;
                if p < pos {
                    assert(ranked@[p] == j as usize);
                } else {
                    assert(ranked@[p + 1] == j as usize);
                }
            }
            assert(ranked@.contains(i));
        }
        i = i + 1;
    }
    let ghost full = ranked@;
    ranked.truncate(top_k);
    proof {
        assert forall|j: int| is_hit(raw@, j) && !ranked@.contains(j as usize) implies {
            &&& ranked@.len() == top_k
            &&& forall|p: int| 0 <= p < ranked@.len() ==> ranks_before(rounded@, #[trigger] ranked@[p] as int, j)
        } by {
            assert(full.contains(j as usize));
            let q = choose|q: int| 0 <= q < full.len() && full[q] == j as usize;
            if q < ranked@.len() {
                assert(ranked@[q] == j as usize);
            }
            assert(top_k < full.len());
            assert forall|p: int| 0 <= p < ranked@.len() implies ranks_before(rounded@, #[trigger] ranked@[p] as int, j) by {
                assert(ranked@[p] == full[p]);
            }
        }
    }
    ranked
}

/// The search ranking is determined by the similarities and `top_k`: two
/// sequences that both meet `is_search_ranking` are equal.
pub proof fn lemma_search_ranking_unique(
    raw: Seq<u64>,
    rounded: Seq<u64>,
    top_k: int,
    a: Seq<usize>,
    b: Seq<usize>,
)
    requires
        is_search_ranking(raw, rounded, top_k, a),
        is_search_ranking(raw, rounded, top_k, b),
    ensures
        a == b,
{
    assert forall|p: int| 0 <= p < a.len() && p < b.len() implies a[p] == b[p] by {
        lemma_rankings_agree_at(raw, rounded, top_k, a, b, p);
    }
    if a.len() < b.len() {
        lemma_ranking_not_shorter(raw, rounded, top_k, a, b);
    } else if b.len() < a.len() {
        assert forall|p: int| 0 <= p < b.len() && p < a.len() implies b[p] == a[p] by {
            lemma_rankings_agree_at(raw, rounded, top_k, a, b, p);
        }
        lemma_ranking_not_shorter(raw, rounded, top_k, b, a);
    }
    assert(a =~= b);
}

proof fn lemma_rankings_agree_at(
    raw: Seq<u64>,
    rounded: Seq<u64>,
    top_k: int,
    a: Seq<usize>,
    b: Seq<usize>,
    p: int,
)
    requires
        is_search_ranking(raw, rounded, top_k, a),
        is_search_ranking(raw, rounded, top_k, b),
        0 <= p < a.len(),
        p < b.len(),
    ensures
        a[p] == b[p],
    decreases p,
{
    assert forall|q: int| 0 <= q < p implies a[q] == b[q] by {
        lemma_rankings_agree_at(raw, rounded, top_k, a, b, q);
    }
    let x = a[p];
    let y = b[p];
    if x != y {
        lemma_comes_before(raw, rounded, top_k, a, b, p);
        lemma_comes_before(raw, rounded, top_k, b, a, p);
        assert(ranks_before(rounded, y as int, x as int));
        assert(ranks_before(rounded, x as int, y as int));
    }
}

/// Where two rankings agree before position `p` and differ at it, the entry of
/// the second at `p` comes before the entry of the first at `p`.
proof fn lemma_comes_before(
    raw: Seq<u64>,
    rounded: Seq<u64>,
    top_k: int,
    a: Seq<usize>,
    b: Seq<usize>,
    p: int,
)
    requires
        is_search_ranking(raw, rounded, top_k, a),
        is_search_ranking(raw, rounded, top_k, b),
        0 <= p < a.len(),
        p < b.len(),
        forall|q: int| 0 <= q < p ==> a[q] == b[q],
        a[p] != b[p],
    ensures
        ranks_before(rounded, b[p] as int, a[p] as int),
{
    let x = a[p];
    assert(is_hit(raw, x as int));
    if b.contains(x) {
        let q = choose|q: int| 0 <= q < b.len() && b[q] == x;
        if q < p {
            assert(a[q] == x);
            assert(ranks_before(rounded, a[q] as int, a[p] as int));
        } else {
            assert(q > p);
            assert(ranks_before(rounded, b[p] as int, b[q] as int));
        }
    } else {
        assert(ranks_before(rounded, b[p] as int, x as int));
    }
}

/// A ranking that agrees with another on their common positions is not the
/// shorter of the two.
proof fn lemma_ranking_not_shorter(
    raw: Seq<u64>,
    rounded: Seq<u64>,
    top_k: int,
    a: Seq<usize>,
    b: Seq<usize>,
)
    requires
        is_search_ranking(raw, rounded, top_k, a),
        is_search_ranking(raw, rounded, top_k, b),
        forall|p: int| 0 <= p < a.len() && p < b.len() ==> a[p] == b[p],
    ensures
        a.len() >= b.len(),
{
    if a.len() < b.len() {
        let y = b[a.len() as int];
        assert(is_hit(raw, y as int));
        if a.contains(y) {
            let q = choose|q: int| 0 <= q < a.len() && a[q] == y;
            assert(b[q] == y);
            assert(ranks_before(rounded, b[q] as int, b[a.len() as int] as int));
        } else {
            assert(a.len() == top_k);
        }
    }
}

/// A hit whose rounded similarity is above that of every other hit leads the
/// search ranking whenever at least one result is asked for.
pub proof fn lemma_best_hit_ranked_first(
    raw: Seq<u64>,
    rounded: Seq<u64>,
    top_k: int,
    ranked: Seq<usize>,
    i: int,
)
    requires
        is_search_ranking(raw, rounded, top_k, ranked),
        raw.len() <= usize::MAX,
        top_k >= 1,
        is_hit(raw, i),
        forall|j: int| is_hit(raw, j) && j != i ==> score_order(rounded[j]) < score_order(rounded[i]),
    ensures
        ranked.len() >= 1,
        ranked[0] == i,
{
    if !ranked.contains(i as usize) {
        assert(ranks_before(rounded, ranked[0] as int, i));
        assert(is_hit(raw, ranked[0] as int));
    } else {
        let q = choose|q: int| 0 <= q < ranked.len() && ranked[q] == i as usize;
        if q > 0 {
            assert(ranks_before(rounded, ranked[0] as int, ranked[q] as int));
            assert(is_hit(raw, ranked[0] as int));
        }
    }
}

/// The rank follows the floats: non-negative values rank as their bit
/// patterns, negative values in the reverse order of theirs, every negative
/// value other than `-0.0` ranks below every non-negative one, `-0.0` and
/// `0.0` rank equal, a NaN ranks 0 and every other value above 0.
pub proof fn lemma_score_order_follows_floats(a: u64, b: u64)
    ensures
        !is_nan_bits(a) && !is_nan_bits(b) && a < 0x8000_0000_0000_0000 && b
            < 0x8000_0000_0000_0000 ==> (score_order(a) < score_order(b) <==> a < b),
        !is_nan_bits(a) && !is_nan_bits(b) && a >= 0x8000_0000_0000_0000 && b
            >= 0x8000_0000_0000_0000 ==> (score_order(a) < score_order(b) <==> a > b),
        !is_nan_bits(a) && !is_nan_bits(b) && a > 0x8000_0000_0000_0000 && b
            < 0x8000_0000_0000_0000 ==> score_order(a) < score_order(b),
        score_order(0x8000_0000_0000_0000) == score_order(0),
        is_nan_bits(a) ==> score_order(a) == 0,
        !is_nan_bits(a) ==> score_order(a) > 0,
{
}

/// Gate 2 picks, among the similarities above 0.75, one of the highest, and
/// of the highest the one with the lowest index.
pub proof fn lemma_gate_choice_is_first_of_best(scores: Seq<u64>, i: int, j: int)
    requires
        is_best_similar(scores, i),
        0 <= j < scores.len(),
        score_order(scores[j]) > score_order(GATE_SIMILARITY_BITS),
    ensures
        score_order(scores[i]) > score_order(GATE_SIMILARITY_BITS),
        score_order(scores[j]) <= score_order(scores[i]),
        score_order(scores[j]) == score_order(scores[i]) ==> i <= j,
{
}

/// A search ranking lists hits (similarity above 0.01) only, at most `top_k`
/// of them, in non-increasing order of rounded similarity with ties in
/// increasing entry order; when it holds fewer than `top_k`, every hit is in
/// it.
pub proof fn lemma_search_ranking_order(
    raw: Seq<u64>,
    rounded: Seq<u64>,
    top_k: int,
    ranked: Seq<usize>,
    p: int,
    q: int,
    h: int,
)
    requires
        is_search_ranking(raw, rounded, top_k, ranked),
        raw.len() <= usize::MAX,
    ensures
        ranked.len() <= top_k,
        0 <= p < ranked.len() ==> ranked[p] < raw.len() && score_order(raw[ranked[p] as int])
            > score_order(SEARCH_SIMILARITY_BITS),
        0 <= p < q < ranked.len() ==> score_order(rounded[ranked[p] as int]) >= score_order(
            rounded[ranked[q] as int],
        ),
        0 <= p < q < ranked.len() && score_order(rounded[ranked[p] as int]) == score_order(
            rounded[ranked[q] as int],
        ) ==> ranked[p] < ranked[q],
        ranked.len() < top_k && 0 <= h < raw.len() && score_order(raw[h]) > score_order(
            SEARCH_SIMILARITY_BITS,
        ) ==> ranked.contains(h as usize),
{
    if ranked.len() < top_k && 0 <= h < raw.len() && score_order(raw[h]) > score_order(
        SEARCH_SIMILARITY_BITS,
    ) {
        assert(is_hit(raw, h));
    }
    if 0 <= p < ranked.len() {
        assert(is_hit(raw, ranked[p] as int));
    }
    if 0 <= p < q < ranked.len() {
        assert(ranks_before(rounded, ranked[p] as int, ranked[q] as int));
    }
}

} // verus!
