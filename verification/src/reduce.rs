use vstd::prelude::*;

verus! {

/// The mathematical sum of a sequence of partial values.
pub open spec fn sum_of(s: Seq<u32>) -> int
    decreases s.len(),
{
    if s.len() == 0 {
        0
    } else {
        sum_of(s.drop_last()) + s.last()
    }
}

/// A sum of unsigned 32-bit values is bounded by the count times the largest
/// value, so a 64-bit accumulator holds it whenever the count is at most 2^32.
pub proof fn lemma_sum_bounds(s: Seq<u32>)
    ensures
        0 <= sum_of(s) <= s.len() * 0xffff_ffff,
    decreases s.len(),
{
    if s.len() != 0 {
        lemma_sum_bounds(s.drop_last());
    }
}

/// Extending a prefix by one element adds exactly that element to its sum.
pub proof fn lemma_sum_take_succ(s: Seq<u32>, i: int)
    requires
        0 <= i < s.len(),
    ensures
        sum_of(s.take(i + 1)) == sum_of(s.take(i)) + s[i],
{
    assert(s.take(i + 1).drop_last() =~= s.take(i));
    assert(s.take(i + 1).last() == s[i]);
}

/// Summing a prefix and then the chunk after it is the same as summing the
/// longer prefix.
pub proof fn lemma_sum_prefix_chunk(s: Seq<u32>, m: int, e: int)
    requires
        0 <= m,
        0 <= e,
        m + e <= s.len(),
    ensures
        sum_of(s.take(m + e)) == sum_of(s.take(m)) + sum_of(s.subrange(m, m + e)),
    decreases e,
{
    if e == 0 {
        assert(s.subrange(m, m) =~= Seq::<u32>::empty());
    } else {
        lemma_sum_prefix_chunk(s, m, e - 1);
        lemma_sum_take_succ(s, m + e - 1);
        assert(s.subrange(m, m + e).drop_last() =~= s.subrange(m, m + e - 1));
        assert(s.subrange(m, m + e).last() == s[m + e - 1]);
    }
}

/// If every partial value equals the sum of its own chunk of the input, then
/// any prefix of the partials sums to the matching prefix of the input.
pub proof fn lemma_partials_cover_input(input: Seq<u32>, partials: Seq<u32>, e: int, k: int)
    requires
        0 < e,
        input.len() == partials.len() * e,
        forall|g: int| 0 <= g < partials.len() ==> partials[g] == sum_of(
            input.subrange(g * e, (g + 1) * e),
        ),
        0 <= k <= partials.len(),
    ensures
        sum_of(partials.take(k)) == sum_of(input.take(k * e)),
    decreases k,
{
    if k == 0 {
        assert(partials.take(0) =~= Seq::<u32>::empty());
        assert(input.take(0) =~= Seq::<u32>::empty());
        assert(k * e == 0) by (nonlinear_arith)
            requires
                k == 0,
        ;
    } else {
        lemma_partials_cover_input(input, partials, e, k - 1);
        lemma_sum_take_succ(partials, k - 1);
        assert((k - 1) * e + e == k * e) by (nonlinear_arith);
        assert(k * e <= partials.len() * e) by (nonlinear_arith)
            requires
                k <= partials.len(),
                0 < e,
        ;
        assert(partials[k - 1] == sum_of(input.subrange((k - 1) * e, ((k - 1) + 1) * e)));
        assert(((k - 1) + 1) * e == k * e) by (nonlinear_arith);
        lemma_sum_prefix_chunk(input, (k - 1) * e, e);
        assert(partials[k - 1] == sum_of(input.subrange((k - 1) * e, k * e)));
    }
}

/// The closed form for the sum of consecutive values: a sequence holding
/// `1, 2, ..., n` sums to `n * (n + 1) / 2`.
pub proof fn lemma_consecutive_sum(s: Seq<u32>)
    requires
        forall|i: int| 0 <= i < s.len() ==> s[i] == i + 1,
    ensures
        2 * sum_of(s) == s.len() * (s.len() + 1),
        sum_of(s) == s.len() * (s.len() + 1) / 2,
    decreases s.len(),
{
    if s.len() != 0 {
        let n = s.len() as int;
        lemma_consecutive_sum(s.drop_last());
        assert(2 * sum_of(s) == (n - 1) * n + 2 * n);
        assert((n - 1) * n + 2 * n == n * (n + 1)) by (nonlinear_arith);
        assert((2 * sum_of(s)) / 2 == sum_of(s));
    }
}

/// If the input is `1..=n`, the chunking is exact and every partial equals the
/// sum of its chunk, then the partials as a whole sum to `n * (n + 1) / 2`:
/// the analytically known expected value of the run.
pub proof fn lemma_total_matches_closed_form(input: Seq<u32>, partials: Seq<u32>, e: int)
    requires
        0 < e,
        input.len() == partials.len() * e,
        forall|i: int| 0 <= i < input.len() ==> input[i] == i + 1,
        forall|g: int| 0 <= g < partials.len() ==> partials[g] == sum_of(
            input.subrange(g * e, (g + 1) * e),
        ),
    ensures
        sum_of(partials) == input.len() * (input.len() + 1) / 2,
{
    let k = partials.len() as int;
    lemma_partials_cover_input(input, partials, e, k);
    assert(partials.take(k) =~= partials);
    assert(input.take(k * e) =~= input);
    lemma_consecutive_sum(input);
}

/// Sum the partial values with a 64-bit accumulator: strictly wider than the
/// 32-bit elements, so for any count the device can produce the sum cannot
/// overflow.
pub fn sum_partials(partials: &Vec<u32>) -> (total: u64)
    requires
        partials@.len() <= 0x1_0000_0000,
    ensures
        total == sum_of(partials@),
{
    let n: usize = partials.len();
    let mut total: u64 = 0;
    let mut i: usize = 0;
    while i < n
        invariant
            i <= n,
            n == partials@.len() <= 0x1_0000_0000,
            total == sum_of(partials@.take(i as int)),
        decreases n - i,
    {
        proof {
            lemma_sum_bounds(partials@.take(i as int));
            lemma_sum_take_succ(partials@, i as int);
        }
        total = total + partials[i] as u64;
        i = i + 1;
    }
    proof {
        assert(partials@.take(n as int) =~= partials@);
    }
    total
}

/// The analytically known expected total for input `1..=n`, computed by the
/// closed form rather than by the summation path it cross-checks.
pub fn expected_total(n: u32) -> (r: u64)
    ensures
        r == n * (n + 1 as int) / 2,
{
    let wide = n as u64;
    proof {
        assert(wide * (wide + 1) <= 0xffff_ffff * 0x1_0000_0000) by (nonlinear_arith)
            requires
                wide <= 0xffff_ffff,
        ;
    }
    wide * (wide + 1) / 2
}

/// Sum the returned partials and compare against the independently computed
/// expected value: the correctness oracle of the whole pipeline.
pub fn reduce_and_verify(partials: &Vec<u32>, expected: u64) -> (r: (u64, bool))
    requires
        partials@.len() <= 0x1_0000_0000,
    ensures
        r.0 == sum_of(partials@),
        r.1 <==> sum_of(partials@) == expected,
{
    let total = sum_partials(partials);
    (total, total == expected)
}

/// How many positions of two equally long value arrays disagree.
pub open spec fn mismatch_count(a: Seq<u32>, b: Seq<u32>) -> int
    decreases a.len(),
{
    if a.len() == 0 {
        0
    } else {
        mismatch_count(a.drop_last(), b.drop_last()) + if a.last() == b.last() {
            0int
        } else {
            1int
        }
    }
}

/// Extending both prefixes by one element adds one mismatch exactly when the
/// new elements disagree.
pub proof fn lemma_mismatch_take_succ(a: Seq<u32>, b: Seq<u32>, i: int)
    requires
        a.len() == b.len(),
        0 <= i < a.len(),
    ensures
        mismatch_count(a.take(i + 1), b.take(i + 1)) == mismatch_count(a.take(i), b.take(i)) + if a[i]
            == b[i] {
            0int
        } else {
            1int
        },
{
    assert(a.take(i + 1).drop_last() =~= a.take(i));
    assert(b.take(i + 1).drop_last() =~= b.take(i));
}

/// Two equally long arrays have no mismatches exactly when they agree at
/// every position.
pub proof fn lemma_mismatch_zero(a: Seq<u32>, b: Seq<u32>)
    requires
        a.len() == b.len(),
    ensures
        mismatch_count(a, b) == 0 <==> a =~= b,
    decreases a.len(),
{
    if a.len() != 0 {
        lemma_mismatch_zero(a.drop_last(), b.drop_last());
        lemma_mismatch_nonneg(a.drop_last(), b.drop_last());
        if mismatch_count(a, b) == 0 {
            assert(forall|i: int| 0 <= i < a.len() - 1 ==> a[i] == a.drop_last()[i]);
            assert(a =~= b);
        } else {
            if a =~= b {
                assert(a.drop_last() =~= b.drop_last());
            }
        }
    }
}

/// A mismatch count is never negative.
pub proof fn lemma_mismatch_nonneg(a: Seq<u32>, b: Seq<u32>)
    ensures
        0 <= mismatch_count(a, b),
    decreases a.len(),
{
    if a.len() != 0 {
        lemma_mismatch_nonneg(a.drop_last(), b.drop_last());
    }
}

/// Count element-wise disagreements between two equally long value arrays,
/// such as a kernel's output against the input it should reproduce.
pub fn count_mismatches(a: &Vec<u32>, b: &Vec<u32>) -> (r: usize)
    requires
        a@.len() == b@.len(),
    ensures
        r == mismatch_count(a@, b@),
        r == 0 <==> a@ =~= b@,
{
    let n: usize = a.len();
    let mut count: usize = 0;
    let mut i: usize = 0;
    while i < n
        invariant
            i <= n,
            n == a@.len(),
            a@.len() == b@.len(),
            count <= i,
            count == mismatch_count(a@.take(i as int), b@.take(i as int)),
        decreases n - i,
    {
        proof {
            lemma_mismatch_take_succ(a@, b@, i as int);
        }
        if a[i] != b[i] {
            count = count + 1;
        }
        i = i + 1;
    }
    proof {
        assert(a@.take(n as int) =~= a@);
        assert(b@.take(n as int) =~= b@);
        lemma_mismatch_zero(a@, b@);
    }
    count
}

} // verus!
