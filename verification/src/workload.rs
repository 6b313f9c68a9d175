//! Workload-mix selection: turns a target traffic mix (weights per
//! transaction type, a target QPS, and an in-flight ratio) into the concrete
//! set of runnable workloads. In `Combined` mode one global QPS budget is
//! split across the selected workload types proportionally to their weights,
//! rounding down and assigning the remainder to the first selected type in
//! declaration order, so the per-workload budgets sum to the configured total
//! exactly. In `Disjoint` mode every selected type receives the full target
//! QPS independently.

use vstd::prelude::*;
use crate::options::StressOptions;
use vstd::arithmetic::div_mod::{
    lemma_div_is_ordered, lemma_div_multiples_vanish, lemma_fundamental_div_mod,
    lemma_div_pos_is_pos,
};
use vstd::arithmetic::mul::{
    lemma_mul_inequality, lemma_mul_inequality_converse, lemma_mul_is_commutative,
    lemma_mul_nonnegative, lemma_mul_upper_bound,
};

verus! {

/// The closed set of synthetic transaction types the harness can drive.
/// Declaration order is the tie-break order for remainder assignment.
#[derive(Clone, Copy, PartialEq, Eq, Structural, Debug)]
pub enum WorkloadKind {
    SharedCounter,
    TransferObject,
}

/// How the configured target QPS is distributed over the workload types.
#[derive(Clone, Copy, PartialEq, Eq, Structural, Debug)]
pub enum WorkloadConfiguration {
    /// Each selected workload type gets an independent budget of the full
    /// target QPS.
    Disjoint,
    /// All selected workload types share one global target-QPS budget, mixed
    /// by weight.
    Combined,
}

/// A configured traffic generator for one transaction type: its QPS budget,
/// the bound on concurrently outstanding requests, and the funding handle it
/// draws gas from.
#[derive(Clone, Copy, PartialEq, Eq, Structural, Debug)]
pub struct Workload {
    pub kind: WorkloadKind,
    pub target_qps: u64,
    pub max_in_flight: u64,
    pub gas_id: u64,
}

/// Why a workload mix cannot be configured.
#[derive(Clone, Copy, PartialEq, Eq, Structural, Debug)]
pub enum ConfigurationError {
    /// Every configured weight is zero: there is no workload to run.
    AllWeightsZero,
    /// A selected workload type needs the primary funding resource, but none
    /// was provided by the environment setup.
    MissingPrimaryGas,
}

/// The sum of a sequence of weights or shares.
pub open spec fn seq_sum(s: Seq<u64>) -> int
    decreases s.len(),
{
    if s.len() == 0 {
        0
    } else {
        seq_sum(s.drop_last()) + s.last()
    }
}

/// The floor share of `target_qps` a weight receives out of `total_weight`.
pub open spec fn base_share(target_qps: u64, weight: u64, total_weight: int) -> int {
    (target_qps * weight) / total_weight
}

/// The sum of the floor shares of every weight in `weights`.
pub open spec fn sum_base_shares(target_qps: u64, weights: Seq<u64>, total_weight: int) -> int
    decreases weights.len(),
{
    if weights.len() == 0 {
        0
    } else {
        sum_base_shares(target_qps, weights.drop_last(), total_weight) + base_share(
            target_qps,
            weights.last(),
            total_weight,
        )
    }
}

/// The index of the first nonzero weight: the workload that absorbs the
/// rounding remainder. Meaningful only when some weight is nonzero.
pub open spec fn first_selected(weights: Seq<u64>) -> int
    decreases weights.len(),
{
    if weights.len() == 0 {
        0
    } else if weights[0] > 0 {
        0
    } else {
        1 + first_selected(weights.subrange(1, weights.len() as int))
    }
}

/// What the floor shares leave over from the target QPS.
pub open spec fn qps_remainder(target_qps: u64, weights: Seq<u64>) -> int {
    target_qps - sum_base_shares(target_qps, weights, seq_sum(weights))
}

/// The QPS assigned to position `i` of the mix: its floor share, plus the
/// remainder if `i` is the first selected position.
pub open spec fn assigned_qps(target_qps: u64, weights: Seq<u64>, i: int) -> int {
    base_share(target_qps, weights[i], seq_sum(weights)) + if i == first_selected(weights) {
        qps_remainder(target_qps, weights)
    } else {
        0
    }
}

pub proof fn lemma_seq_sum_nonneg(s: Seq<u64>)
    ensures
        seq_sum(s) >= 0,
    decreases s.len(),
{
    if s.len() > 0 {
        lemma_seq_sum_nonneg(s.drop_last());
    }
}

pub proof fn lemma_seq_sum_append(a: Seq<u64>, b: Seq<u64>)
    ensures
        seq_sum(a + b) == seq_sum(a) + seq_sum(b),
    decreases b.len(),
{
    if b.len() == 0 {
        assert(a + b =~= a);
    } else {
        assert((a + b).drop_last() =~= a + b.drop_last());
        assert((a + b).last() == b.last());
        lemma_seq_sum_append(a, b.drop_last());
    }
}

pub proof fn lemma_seq_sum_take_step(s: Seq<u64>, i: int)
    requires
        0 <= i < s.len(),
    ensures
        seq_sum(s.take(i + 1)) == seq_sum(s.take(i)) + s[i],
{
    assert(s.take(i + 1).drop_last() =~= s.take(i));
    assert(s.take(i + 1).last() == s[i]);
}

pub proof fn lemma_seq_sum_element(s: Seq<u64>, i: int)
    requires
        0 <= i < s.len(),
    ensures
        s[i] <= seq_sum(s),
    decreases s.len(),
{
    if i == s.len() - 1 {
        lemma_seq_sum_nonneg(s.drop_last());
    } else {
        lemma_seq_sum_element(s.drop_last(), i);
    }
}

pub proof fn lemma_seq_sum_take_le(s: Seq<u64>, i: int)
    requires
        0 <= i <= s.len(),
    ensures
        seq_sum(s.take(i)) <= seq_sum(s),
{
    assert(s =~= s.take(i) + s.subrange(i, s.len() as int));
    lemma_seq_sum_append(s.take(i), s.subrange(i, s.len() as int));
    lemma_seq_sum_nonneg(s.subrange(i, s.len() as int));
}

pub proof fn lemma_seq_sum_update(s: Seq<u64>, i: int, v: u64)
    requires
        0 <= i < s.len(),
    ensures
        seq_sum(s.update(i, v)) == seq_sum(s) + v - s[i],
    decreases s.len(),
{
    if i == s.len() - 1 {
        assert(s.update(i, v).drop_last() =~= s.drop_last());
        assert(s.update(i, v).last() == v);
    } else {
        assert(s.update(i, v).drop_last() =~= s.drop_last().update(i, v));
        assert(s.update(i, v).last() == s.last());
        lemma_seq_sum_update(s.drop_last(), i, v);
    }
}

/// A zero sum forces every weight to be zero, and conversely.
pub proof fn lemma_seq_sum_zero(s: Seq<u64>)
    ensures
        (seq_sum(s) == 0) <==> (forall|i: int| 0 <= i < s.len() ==> s[i] == 0),
    decreases s.len(),
{
    lemma_seq_sum_nonneg(s);
    if seq_sum(s) == 0 {
        assert forall|i: int| 0 <= i < s.len() implies s[i] == 0 by {
            lemma_seq_sum_element(s, i);
        }
    }
    if s.len() > 0 {
        lemma_seq_sum_zero(s.drop_last());
        if forall|i: int| 0 <= i < s.len() ==> s[i] == 0 {
            assert(forall|i: int|
                0 <= i < s.drop_last().len() ==> #[trigger] s.drop_last()[i] == s[i]);
            assert(seq_sum(s) == seq_sum(s.drop_last()) + s.last());
        }
    }
}

/// Every floor share lies between zero and the whole target QPS.
pub proof fn lemma_base_share_bounds(target_qps: u64, weight: u64, total_weight: int)
    requires
        total_weight > 0,
        weight <= total_weight,
    ensures
        0 <= base_share(target_qps, weight, total_weight) <= target_qps,
{
    lemma_mul_nonnegative(target_qps as int, weight as int);
    lemma_div_pos_is_pos(target_qps * weight, total_weight);
    lemma_mul_inequality(weight as int, total_weight, target_qps as int);
    lemma_mul_is_commutative(target_qps as int, weight as int);
    lemma_mul_is_commutative(target_qps as int, total_weight);
    lemma_div_is_ordered(target_qps * weight, target_qps * total_weight, total_weight);
    lemma_div_multiples_vanish(target_qps as int, total_weight);
}

/// The floor shares, weighted by the divisor, never exceed the exact shares.
pub proof fn lemma_sum_base_mul_le(target_qps: u64, weights: Seq<u64>, total_weight: int)
    requires
        total_weight > 0,
    ensures
        sum_base_shares(target_qps, weights, total_weight) >= 0,
        sum_base_shares(target_qps, weights, total_weight) * total_weight <= target_qps * seq_sum(
            weights,
        ),
    decreases weights.len(),
{
    if weights.len() == 0 {
        assert(0 * total_weight == 0);
        assert(target_qps * 0 == 0);
    } else {
        let prefix = weights.drop_last();
        let w = weights.last();
        lemma_sum_base_mul_le(target_qps, prefix, total_weight);
        lemma_mul_nonnegative(target_qps as int, w as int);
        lemma_div_pos_is_pos(target_qps * w, total_weight);
        // total_weight * floor(q*w / total_weight) <= q*w
        lemma_fundamental_div_mod(target_qps * w, total_weight);
        let sp = sum_base_shares(target_qps, prefix, total_weight);
        let b = base_share(target_qps, w, total_weight);
        assert((sp + b) * total_weight == sp * total_weight + b * total_weight) by (nonlinear_arith);
        assert(b * total_weight <= target_qps * w) by {
            lemma_fundamental_div_mod(target_qps * w, total_weight);
            lemma_mul_is_commutative(b, total_weight);
        }
        assert(target_qps * (seq_sum(prefix) + w) == target_qps * seq_sum(prefix) + target_qps * w)
            by (nonlinear_arith);
    }
}

pub proof fn lemma_sum_base_take_step(target_qps: u64, s: Seq<u64>, total_weight: int, i: int)
    requires
        0 <= i < s.len(),
    ensures
        sum_base_shares(target_qps, s.take(i + 1), total_weight) == sum_base_shares(
            target_qps,
            s.take(i),
            total_weight,
        ) + base_share(target_qps, s[i], total_weight),
{
    assert(s.take(i + 1).drop_last() =~= s.take(i));
    assert(s.take(i + 1).last() == s[i]);
}

/// Every floor share is part of their sum.
pub proof fn lemma_sum_base_element(target_qps: u64, weights: Seq<u64>, total_weight: int, i: int)
    requires
        total_weight > 0,
        0 <= i < weights.len(),
    ensures
        base_share(target_qps, weights[i], total_weight) <= sum_base_shares(
            target_qps,
            weights,
            total_weight,
        ),
    decreases weights.len(),
{
    if i == weights.len() - 1 {
        lemma_sum_base_mul_le(target_qps, weights.drop_last(), total_weight);
    } else {
        lemma_sum_base_element(target_qps, weights.drop_last(), total_weight, i);
        lemma_mul_nonnegative(target_qps as int, weights.last() as int);
        lemma_div_pos_is_pos(target_qps * weights.last(), total_weight);
    }
}

/// When some weight is nonzero, the first selected position is a valid index,
/// carries a nonzero weight, and everything before it is zero.
pub proof fn lemma_first_selected(weights: Seq<u64>)
    requires
        exists|i: int| 0 <= i < weights.len() && weights[i] > 0,
    ensures
        0 <= first_selected(weights) < weights.len(),
        weights[first_selected(weights)] > 0,
        forall|j: int| 0 <= j < first_selected(weights) ==> weights[j] == 0,
    decreases weights.len(),
{
    if weights[0] > 0 {
    } else {
        let tail = weights.subrange(1, weights.len() as int);
        let i = choose|i: int| 0 <= i < weights.len() && weights[i] > 0;
        assert(tail[i - 1] == weights[i]);
        lemma_first_selected(tail);
        assert(weights[first_selected(weights)] == tail[first_selected(tail)]);
        assert forall|j: int| 0 <= j < first_selected(weights) implies weights[j] == 0 by {
            if j >= 1 {
                assert(weights[j] == tail[j - 1]);
            }
        }
    }
}

/// Splits `target_qps` over `weights` proportionally, rounding down, with the
/// remainder assigned to the first position whose weight is nonzero. Fails
/// exactly when every weight is zero; on success the shares sum to
/// `target_qps` with no rounding drift.
pub fn partition_qps(weights: &Vec<u64>, target_qps: u64) -> (r: Result<
    Vec<u64>,
    ConfigurationError,
>)
    ensures
        r is Err <==> seq_sum(weights@) == 0,
        r matches Err(e) ==> e == ConfigurationError::AllWeightsZero,
        r matches Ok(shares) ==> {
            &&& shares@.len() == weights@.len()
            &&& seq_sum(shares@) == target_qps
            &&& forall|i: int|
                0 <= i < weights@.len() ==> #[trigger] shares@[i] == assigned_qps(
                    target_qps,
                    weights@,
                    i,
                )
        },
{
    let n = weights.len();
    let ghost w = weights@;

    // Total weight, summed wide enough that it cannot overflow.
    let mut total: u128 = 0;
    let mut i: usize = 0;
    while i < n
        invariant
            n == w.len(),
            w == weights@,
            0 <= i <= n,
            total == seq_sum(w.take(i as int)),
            total <= (i as int) * 0xffff_ffff_ffff_ffffu64,
        decreases n - i,
    {
        proof {
            lemma_seq_sum_take_step(w, i as int);
        }
        total = total + weights[i] as u128;
        i = i + 1;
    }
    proof {
        assert(w.take(n as int) =~= w);
    }

    if total == 0 {
        return Err(ConfigurationError::AllWeightsZero);
    }
    proof {
        lemma_seq_sum_zero(w);
    }

    // Floor shares.
    let mut shares: Vec<u64> = Vec::new();
    let mut sum_bases: u128 = 0;
    let mut i: usize = 0;
    while i < n
        invariant
            n == w.len(),
            w == weights@,
            total == seq_sum(w),
            total > 0,
            0 <= i <= n,
            shares@.len() == i,
            forall|j: int|
                0 <= j < i ==> #[trigger] shares@[j] == base_share(target_qps, w[j], seq_sum(w)),
            sum_bases == sum_base_shares(target_qps, w.take(i as int), seq_sum(w)),
            seq_sum(shares@) == sum_bases,
            sum_bases <= target_qps,
        decreases n - i,
    {
        let wi = weights[i];
        proof {
            lemma_seq_sum_element(w, i as int);
            lemma_base_share_bounds(target_qps, wi, seq_sum(w));
            lemma_mul_upper_bound(
                target_qps as int,
                0xffff_ffff_ffff_ffffu64 as int,
                wi as int,
                0xffff_ffff_ffff_ffffu64 as int,
            );
        }
        let b128: u128 = (target_qps as u128) * (wi as u128) / total;
        let b: u64 = b128 as u64;
        proof {
            assert(b == base_share(target_qps, wi, seq_sum(w)));
            lemma_sum_base_take_step(target_qps, w, seq_sum(w), i as int);
            // The enlarged partial sum still fits under the target.
            lemma_sum_base_mul_le(target_qps, w.take(i as int + 1), seq_sum(w));
            lemma_seq_sum_take_le(w, i as int + 1);
            assert(target_qps * seq_sum(w.take(i as int + 1)) <= target_qps * seq_sum(w)) by {
                lemma_mul_inequality(
                    seq_sum(w.take(i as int + 1)),
                    seq_sum(w),
                    target_qps as int,
                );
                lemma_mul_is_commutative(target_qps as int, seq_sum(w.take(i as int + 1)));
                lemma_mul_is_commutative(target_qps as int, seq_sum(w));
            }
            lemma_mul_inequality_converse(
                sum_base_shares(target_qps, w.take(i as int + 1), seq_sum(w)),
                target_qps as int,
                seq_sum(w),
            );
            lemma_seq_sum_take_step(shares@.push(b), i as int);
            assert(shares@.push(b).take(i as int) =~= shares@);
            assert(shares@.push(b).take(i as int + 1) =~= shares@.push(b));
        }
        shares.push(b);
        sum_bases = sum_bases + b as u128;
        i = i + 1;
    }
    proof {
        assert(w.take(n as int) =~= w);
    }

    // The remainder goes to the first selected workload.
    let rem: u64 = target_qps - sum_bases as u64;
    let mut idx: usize = 0;
    while idx < n && weights[idx] == 0
        invariant
            n == w.len(),
            w == weights@,
            0 <= idx <= n,
            forall|j: int| 0 <= j < idx ==> w[j] == 0,
        decreases n - idx,
    {
        idx = idx + 1;
    }
    proof {
        lemma_seq_sum_zero(w);
        assert(idx < n && w[idx as int] > 0);
        lemma_first_selected(w);
        // Both `idx` and `first_selected` are the least nonzero position.
        if idx < first_selected(w) {
            assert(w[idx as int] == 0);
        }
        if first_selected(w) < idx {
            assert(w[first_selected(w)] == 0);
        }
        assert(idx == first_selected(w));
        lemma_sum_base_element(target_qps, w, seq_sum(w), idx as int);
    }
    let bumped: u64 = shares[idx] + rem;
    proof {
        lemma_seq_sum_update(shares@, idx as int, bumped);
    }
    let ghost before = shares@;
    shares.set(idx, bumped);
    proof {
        assert(seq_sum(shares@) == target_qps);
        assert forall|i2: int| 0 <= i2 < w.len() implies #[trigger] shares@[i2] == assigned_qps(
            target_qps,
            w,
            i2,
        ) by {
            if i2 == idx as int {
            } else {
                assert(shares@[i2] == before[i2]);
            }
        }
    }
    Ok(shares)
}

pub proof fn lemma_seq_sum_pair(a: u64, b: u64)
    ensures
        seq_sum(seq![a, b]) == a + b,
{
    assert(seq![a, b].drop_last() =~= seq![a]);
    assert(seq![a].drop_last() =~= Seq::<u64>::empty());
    assert(seq_sum(Seq::<u64>::empty()) == 0);
    assert(seq_sum(seq![a]) == a);
}

/// The traffic-mix weights in declaration order: shared counter first, then
/// transfer object.
pub open spec fn mix_weights(opts: StressOptions) -> Seq<u64> {
    seq![opts.shared_counter_weight, opts.transfer_object_weight]
}

/// The QPS a selected mix position receives under a configuration: its exact
/// share of the partitioned budget in `Combined` mode, the full target QPS in
/// `Disjoint` mode.
pub open spec fn mode_qps(config: WorkloadConfiguration, opts: StressOptions, i: int) -> int {
    if config is Combined {
        assigned_qps(opts.target_qps, mix_weights(opts), i)
    } else {
        opts.target_qps as int
    }
}

impl WorkloadConfiguration {
    /// Turns the configured mix into the runnable workloads, in declaration
    /// order, skipping workload types whose weight is zero. Each workload's
    /// outstanding-request bound is its QPS budget times the in-flight ratio
    /// (the ratio is integral, so the ceiling is the product itself). Fails
    /// when every weight is zero, or when a workload was selected but the
    /// environment provided no primary funding resource. The secondary
    /// funding resource is accepted for workload types that pay in a
    /// dedicated coin; neither built-in type does.
    pub fn configure(
        &self,
        primary_gas: Option<u64>,
        _pay_coin: Option<u64>,
        _pay_coin_type: Option<u64>,
        opts: &StressOptions,
    ) -> (r: Result<Vec<Workload>, ConfigurationError>)
        requires
            opts.target_qps * opts.in_flight_ratio <= u64::MAX,
        ensures
            (opts.shared_counter_weight == 0 && opts.transfer_object_weight == 0) <==> r == Err::<
                Vec<Workload>,
                ConfigurationError,
            >(ConfigurationError::AllWeightsZero),
            ((opts.shared_counter_weight > 0 || opts.transfer_object_weight > 0)
                && primary_gas is None) <==> r == Err::<Vec<Workload>, ConfigurationError>(
                ConfigurationError::MissingPrimaryGas,
            ),
            r is Ok <==> ((opts.shared_counter_weight > 0 || opts.transfer_object_weight > 0)
                && primary_gas is Some),
            r matches Ok(ws) ==> {
                &&& (opts.shared_counter_weight > 0 && opts.transfer_object_weight > 0) ==> {
                    &&& ws@.len() == 2
                    &&& ws@[0].kind == WorkloadKind::SharedCounter
                    &&& ws@[1].kind == WorkloadKind::TransferObject
                    &&& ws@[0].target_qps == mode_qps(*self, *opts, 0)
                    &&& ws@[1].target_qps == mode_qps(*self, *opts, 1)
                }
                &&& (opts.shared_counter_weight > 0 && opts.transfer_object_weight == 0) ==> {
                    &&& ws@.len() == 1
                    &&& ws@[0].kind == WorkloadKind::SharedCounter
                    &&& ws@[0].target_qps == mode_qps(*self, *opts, 0)
                }
                &&& (opts.shared_counter_weight == 0 && opts.transfer_object_weight > 0) ==> {
                    &&& ws@.len() == 1
                    &&& ws@[0].kind == WorkloadKind::TransferObject
                    &&& ws@[0].target_qps == mode_qps(*self, *opts, 1)
                }
                &&& forall|i: int|
                    0 <= i < ws@.len() ==> #[trigger] ws@[i].max_in_flight == ws@[i].target_qps
                        * opts.in_flight_ratio
                &&& forall|i: int|
                    0 <= i < ws@.len() ==> #[trigger] ws@[i].gas_id == primary_gas.unwrap()
            },
    {
        let sc = opts.shared_counter_weight;
        let to = opts.transfer_object_weight;
        if sc == 0 && to == 0 {
            return Err(ConfigurationError::AllWeightsZero);
        }
        let gas_id = match primary_gas {
            Some(id) => id,
            None => {
                return Err(ConfigurationError::MissingPrimaryGas);
            },
        };

        let mut weights: Vec<u64> = Vec::new();
        weights.push(sc);
        weights.push(to);
        proof {
            assert(weights@ =~= mix_weights(*opts));
        }

        let q = opts.target_qps;
        proof {
            lemma_seq_sum_pair(sc, to);
        }
        let shares: Vec<u64> = match self {
            WorkloadConfiguration::Combined => {
                match partition_qps(&weights, q) {
                    Ok(s) => s,
                    Err(_) => {
                        proof {
                            // Unreachable: some weight is nonzero.
                            assert(false);
                        }
                        Vec::new()
                    },
                }
            },
            WorkloadConfiguration::Disjoint => {
                let mut s: Vec<u64> = Vec::new();
                s.push(q);
                s.push(q);
                s
            },
        };
        proof {
            assert(shares@.len() == 2);
            assert forall|i: int| 0 <= i < 2 implies 0 <= #[trigger] shares@[i] <= q by {
                if *self is Combined {
                    lemma_seq_sum_element(shares@, i);
                }
            }
        }

        let mut ws: Vec<Workload> = Vec::new();
        if sc > 0 {
            let qps0 = shares[0];
            proof {
                lemma_mul_inequality(qps0 as int, q as int, opts.in_flight_ratio as int);
            }
            ws.push(
                Workload {
                    kind: WorkloadKind::SharedCounter,
                    target_qps: qps0,
                    max_in_flight: qps0 * opts.in_flight_ratio,
                    gas_id,
                },
            );
        }
        if to > 0 {
            let qps1 = shares[1];
            proof {
                lemma_mul_inequality(qps1 as int, q as int, opts.in_flight_ratio as int);
            }
            ws.push(
                Workload {
                    kind: WorkloadKind::TransferObject,
                    target_qps: qps1,
                    max_in_flight: qps1 * opts.in_flight_ratio,
                    gas_id,
                },
            );
        }
        Ok(ws)
    }
}

} // verus!
