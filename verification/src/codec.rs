//! Canonical persisted form of `BenchmarkStats`: a JSON array holding the
//! fields in declaration order. Each counter is rendered as a quoted
//! fixed-width decimal string so that every document has one byte-exact
//! canonical form; an absent per-workload group is `null`, a present one a
//! nested two-element array. Serialization and parsing are exact inverses:
//! parsing accepts precisely the canonical documents, and round-trips every
//! stats value losslessly.

use vstd::prelude::*;
use crate::stats::{BenchmarkStats, GroupStats};
use vstd::arithmetic::div_mod::{
    lemma_breakdown, lemma_fundamental_div_mod, lemma_fundamental_div_mod_converse_div,
    lemma_fundamental_div_mod_converse_mod, lemma_small_mod,
};
use vstd::arithmetic::mul::lemma_mul_inequality;

verus! {

/// Digits of every rendered counter; wide enough for any `u64`.
pub const NUM_WIDTH: usize = 20;

/// Powers of ten.
pub open spec fn pow10(k: nat) -> int
    decreases k,
{
    if k == 0 {
        1
    } else {
        10 * pow10((k - 1) as nat)
    }
}

/// The `k` low-order decimal digits of `n`, zero-padded, most significant
/// first, as ASCII bytes.
pub open spec fn pad(k: nat, n: int) -> Seq<u8>
    decreases k,
{
    if k == 0 {
        Seq::empty()
    } else {
        pad((k - 1) as nat, n / 10).push((48 + n % 10) as u8)
    }
}

pub open spec fn is_digit(b: u8) -> bool {
    48 <= b <= 57
}

/// The value of a big-endian decimal digit string.
pub open spec fn digits_value(s: Seq<u8>) -> int
    decreases s.len(),
{
    if s.len() == 0 {
        0
    } else {
        digits_value(s.drop_last()) * 10 + (s.last() - 48)
    }
}

/// One rendered counter: a quoted fixed-width decimal string.
pub open spec fn spec_num(n: u64) -> Seq<u8> {
    seq![34u8] + pad(NUM_WIDTH as nat, n as int) + seq![34u8]
}

/// One per-workload group: `null` when absent, `[committed,failed]` when
/// present.
pub open spec fn spec_ser_group(g: Option<GroupStats>) -> Seq<u8> {
    match g {
        Option::None => seq![110u8, 117u8, 108u8, 108u8],
        Option::Some(gs) => seq![91u8] + spec_num(gs.committed) + seq![44u8] + spec_num(gs.failed)
            + seq![93u8],
    }
}

/// The canonical document: all fields in declaration order.
pub open spec fn spec_ser_stats(s: BenchmarkStats) -> Seq<u8> {
    seq![91u8] + spec_num(s.duration_secs) + seq![44u8] + spec_num(s.num_committed) + seq![44u8]
        + spec_num(s.num_failed) + seq![44u8] + spec_num(s.qps) + seq![44u8] + spec_num(
        s.latency_p50_ms,
    ) + seq![44u8] + spec_num(s.latency_p95_ms) + seq![44u8] + spec_num(s.latency_p99_ms) + seq![
        44u8
    ] + spec_ser_group(s.shared_counter) + seq![44u8] + spec_ser_group(s.transfer_object) + seq![
        93u8
    ]
}

pub proof fn lemma_pow10_pos(k: nat)
    ensures
        pow10(k) >= 1,
    decreases k,
{
    if k > 0 {
        lemma_pow10_pos((k - 1) as nat);
    }
}

/// Every `u64` fits in `NUM_WIDTH` digits.
pub proof fn lemma_pow10_width()
    ensures
        pow10(NUM_WIDTH as nat) > u64::MAX,
{
    reveal_with_fuel(pow10, 21);
}

/// The padded rendering has exactly `k` bytes, all digits, and reads back as
/// `n` modulo `pow10(k)`.
pub proof fn lemma_pad_props(k: nat, n: int)
    requires
        n >= 0,
    ensures
        pad(k, n).len() == k,
        forall|i: int| 0 <= i < k ==> is_digit(#[trigger] pad(k, n)[i]),
        digits_value(pad(k, n)) == n % pow10(k),
    decreases k,
{
    if k == 0 {
        assert(n % 1 == 0) by {
            lemma_small_mod(0, 1);
            lemma_fundamental_div_mod_converse_mod(n, 1, n, 0);
        }
    } else {
        lemma_pad_props((k - 1) as nat, n / 10);
        lemma_pow10_pos((k - 1) as nat);
        let p = pow10((k - 1) as nat);
        assert(pad(k, n).drop_last() =~= pad((k - 1) as nat, n / 10));
        // n % (10 * p) == ((n / 10) % p) * 10 + n % 10
        lemma_breakdown(n, 10, p);
        assert(10 * ((n / 10) % p) == ((n / 10) % p) * 10) by {
            vstd::arithmetic::mul::lemma_mul_is_commutative(10, (n / 10) % p);
        }
    }
}

pub proof fn lemma_digits_value_nonneg(s: Seq<u8>)
    requires
        forall|i: int| 0 <= i < s.len() ==> is_digit(#[trigger] s[i]),
    ensures
        digits_value(s) >= 0,
    decreases s.len(),
{
    if s.len() > 0 {
        assert(forall|i: int|
            0 <= i < s.drop_last().len() ==> is_digit(#[trigger] s.drop_last()[i]));
        lemma_digits_value_nonneg(s.drop_last());
    }
}

/// A digit string's prefixes never read back larger than the whole.
pub proof fn lemma_digits_value_take_le(s: Seq<u8>, i: int)
    requires
        forall|i2: int| 0 <= i2 < s.len() ==> is_digit(#[trigger] s[i2]),
        0 <= i <= s.len(),
    ensures
        digits_value(s.take(i)) <= digits_value(s),
    decreases s.len(),
{
    if i == s.len() {
        assert(s.take(i) =~= s);
    } else {
        assert(forall|i2: int|
            0 <= i2 < s.drop_last().len() ==> is_digit(#[trigger] s.drop_last()[i2]));
        assert(s.take(i) =~= s.drop_last().take(i));
        lemma_digits_value_take_le(s.drop_last(), i);
        lemma_digits_value_nonneg(s.drop_last());
    }
}

/// A digit string is the padded rendering of its own value.
pub proof fn lemma_pad_of_digits(s: Seq<u8>)
    requires
        forall|i: int| 0 <= i < s.len() ==> is_digit(#[trigger] s[i]),
    ensures
        pad(s.len(), digits_value(s)) == s,
    decreases s.len(),
{
    if s.len() > 0 {
        let prefix = s.drop_last();
        let d = s.last() - 48;
        assert(forall|i: int| 0 <= i < prefix.len() ==> is_digit(#[trigger] prefix[i]));
        lemma_digits_value_nonneg(prefix);
        let v = digits_value(s);
        assert(v == digits_value(prefix) * 10 + d);
        lemma_fundamental_div_mod_converse_div(v, 10, digits_value(prefix), d);
        lemma_fundamental_div_mod_converse_mod(v, 10, digits_value(prefix), d);
        lemma_pad_of_digits(prefix);
        assert(pad(s.len(), v) =~= s);
    } else {
        assert(pad(0, 0) =~= s);
    }
}

/// Splitting a known subrange into its bytes.
pub proof fn lemma_sub_index(b: Seq<u8>, lo: int, hi: int, t: Seq<u8>)
    requires
        0 <= lo <= hi <= b.len(),
        b.subrange(lo, hi) == t,
    ensures
        forall|j: int| 0 <= j < hi - lo ==> b[lo + j] == #[trigger] t[j],
{
    assert forall|j: int| 0 <= j < hi - lo implies b[lo + j] == #[trigger] t[j] by {
        assert(b.subrange(lo, hi)[j] == b[lo + j]);
    }
}

/// A slice of a known subrange is the matching slice of its value.
pub proof fn lemma_sub_slice(b: Seq<u8>, lo: int, hi: int, t: Seq<u8>, o1: int, o2: int)
    requires
        0 <= lo <= hi <= b.len(),
        b.subrange(lo, hi) == t,
        0 <= o1 <= o2 <= hi - lo,
    ensures
        b.subrange(lo + o1, lo + o2) == t.subrange(o1, o2),
{
    assert forall|j: int|
        0 <= j < o2 - o1 implies b.subrange(lo + o1, lo + o2)[j] == t.subrange(o1, o2)[j] by {
        assert(b.subrange(lo, hi)[o1 + j] == b[lo + o1 + j]);
    }
    assert(b.subrange(lo + o1, lo + o2) =~= t.subrange(o1, o2));
}

/// Appends the `k` low-order decimal digits of `n`, zero-padded.
fn push_pad(out: &mut Vec<u8>, k: usize, n: u64)
    ensures
        final(out)@ == old(out)@ + pad(k as nat, n as int),
    decreases k,
{
    if k > 0 {
        push_pad(out, k - 1, n / 10);
        out.push(48 + (n % 10) as u8);
        proof {
            assert((n as int) / 10 == (n / 10) as int);
            assert(old(out)@ + pad((k - 1) as nat, n as int / 10) + seq![(48 + n as int % 10) as u8]
                =~= old(out)@ + pad(k as nat, n as int));
        }
    } else {
        proof {
            assert(old(out)@ + pad(0, n as int) =~= old(out)@);
        }
    }
}

/// Appends one rendered counter.
fn push_num(out: &mut Vec<u8>, n: u64)
    ensures
        final(out)@ == old(out)@ + spec_num(n),
{
    out.push(34);
    push_pad(out, NUM_WIDTH, n);
    out.push(34);
    proof {
        assert(old(out)@ + seq![34u8] + pad(NUM_WIDTH as nat, n as int) + seq![34u8] =~= old(out)@
            + spec_num(n));
    }
}

/// Appends one rendered per-workload group.
fn push_group(out: &mut Vec<u8>, g: Option<GroupStats>)
    ensures
        final(out)@ == old(out)@ + spec_ser_group(g),
{
    match g {
        None => {
            out.push(110);
            out.push(117);
            out.push(108);
            out.push(108);
            proof {
                assert(old(out)@ + seq![110u8] + seq![117u8] + seq![108u8] + seq![108u8] =~= old(
                    out,
                )@ + spec_ser_group(g));
            }
        },
        Some(gs) => {
            out.push(91);
            push_num(out, gs.committed);
            out.push(44);
            push_num(out, gs.failed);
            out.push(93);
            proof {
                assert(old(out)@ + seq![91u8] + spec_num(gs.committed) + seq![44u8] + spec_num(
                    gs.failed,
                ) + seq![93u8] =~= old(out)@ + spec_ser_group(g));
            }
        },
    }
}

/// Serializes a stats value to its canonical persisted document.
pub fn serialize_stats(s: &BenchmarkStats) -> (out: Vec<u8>)
    ensures
        out@ == spec_ser_stats(*s),
{
    let mut out: Vec<u8> = Vec::new();
    out.push(91);
    push_num(&mut out, s.duration_secs);
    out.push(44);
    push_num(&mut out, s.num_committed);
    out.push(44);
    push_num(&mut out, s.num_failed);
    out.push(44);
    push_num(&mut out, s.qps);
    out.push(44);
    push_num(&mut out, s.latency_p50_ms);
    out.push(44);
    push_num(&mut out, s.latency_p95_ms);
    out.push(44);
    push_num(&mut out, s.latency_p99_ms);
    out.push(44);
    push_group(&mut out, s.shared_counter);
    out.push(44);
    push_group(&mut out, s.transfer_object);
    out.push(93);
    proof {
        assert(out@ =~= spec_ser_stats(*s));
    }
    out
}

/// Reads exactly `NUM_WIDTH` digits at `pos` as a counter value.
fn parse_pad(b: &Vec<u8>, pos: usize) -> (r: Option<u64>)
    requires
        pos + NUM_WIDTH <= b@.len(),
    ensures
        forall|m: u64|
            b@.subrange(pos as int, pos + NUM_WIDTH) == pad(NUM_WIDTH as nat, m as int) ==> r
                == Some(m),
        r matches Some(v) ==> b@.subrange(pos as int, pos + NUM_WIDTH) == pad(
            NUM_WIDTH as nat,
            v as int,
        ),
{
    let ghost run = b@.subrange(pos as int, pos + NUM_WIDTH);
    let blen = b.len();
    let mut i: usize = 0;
    let mut val: u64 = 0;
    while i < NUM_WIDTH
        invariant
            pos + NUM_WIDTH <= b@.len(),
            b@.len() == blen,
            run == b@.subrange(pos as int, pos + NUM_WIDTH),
            0 <= i <= NUM_WIDTH,
            forall|j: int| 0 <= j < i ==> is_digit(#[trigger] run[j]),
            val == digits_value(run.take(i as int)),
        decreases NUM_WIDTH - i,
    {
        let c = b[pos + i];
        proof {
            assert(run[i as int] == b@[pos + i]);
        }
        if c < 48 || c > 57 {
            proof {
                assert forall|m: u64| run == pad(NUM_WIDTH as nat, m as int) implies false by {
                    lemma_pad_props(NUM_WIDTH as nat, m as int);
                }
            }
            return None;
        }
        let d = (c - 48) as u64;
        if val > (u64::MAX - d) / 10 {
            proof {
                assert forall|m: u64| run == pad(NUM_WIDTH as nat, m as int) implies false by {
                    lemma_pad_props(NUM_WIDTH as nat, m as int);
                    lemma_pow10_width();
                    lemma_small_mod(m as nat, pow10(NUM_WIDTH as nat) as nat);
                    assert(digits_value(run) == m);
                    lemma_digits_value_take_le(run, i + 1);
                    assert(run.take(i + 1).drop_last() =~= run.take(i as int));
                    assert(digits_value(run.take(i + 1)) == val * 10 + d);
                    // val * 10 + d <= m <= u64::MAX contradicts the guard
                    lemma_fundamental_div_mod(u64::MAX - d, 10);
                    lemma_mul_inequality(
                        ((u64::MAX - d) / 10 + 1) as int,
                        val as int,
                        10,
                    );
                }
            }
            return None;
        }
        proof {
            lemma_fundamental_div_mod(u64::MAX - d, 10);
            lemma_mul_inequality(val as int, (u64::MAX - d) / 10 as int, 10);
            assert(run.take(i + 1).drop_last() =~= run.take(i as int));
            assert(run.take(i + 1).last() == run[i as int]);
        }
        val = val * 10 + d;
        i = i + 1;
    }
    proof {
        assert(run.take(NUM_WIDTH as int) =~= run);
        lemma_pad_of_digits(run);
        assert(pad(NUM_WIDTH as nat, val as int) == run);
        assert forall|m: u64| run == pad(NUM_WIDTH as nat, m as int) implies Some(val) == Some::<
            u64,
        >(m) by {
            lemma_pad_props(NUM_WIDTH as nat, m as int);
            lemma_pow10_width();
            lemma_small_mod(m as nat, pow10(NUM_WIDTH as nat) as nat);
        }
    }
    Some(val)
}

/// Consumes one expected structure byte.
fn expect_byte(b: &Vec<u8>, pos: usize, c: u8) -> (r: Option<usize>)
    ensures
        r matches Some(p) ==> p == pos + 1 && pos < b@.len() && b@[pos as int] == c,
        (pos < b@.len() && b@[pos as int] == c) ==> r == Some((pos + 1) as usize),
{
    if pos < b.len() && b[pos] == c {
        Some(pos + 1)
    } else {
        None
    }
}

/// Consumes one rendered counter.
fn parse_num(b: &Vec<u8>, pos: usize) -> (r: Option<(u64, usize)>)
    requires
        pos <= b@.len(),
    ensures
        r matches Some(p) ==> p.1 == pos + NUM_WIDTH + 2 && p.1 <= b@.len() && b@.subrange(
            pos as int,
            p.1 as int,
        ) == spec_num(p.0),
        forall|m: u64|
            (pos + NUM_WIDTH + 2 <= b@.len() && b@.subrange(pos as int, pos + NUM_WIDTH + 2)
                == spec_num(m)) ==> r == Some((m, (pos + NUM_WIDTH + 2) as usize)),
{
    let ghost len = b@.len() as int;
    proof {
        assert forall|m: u64| true implies #[trigger] spec_num(m).len() == NUM_WIDTH + 2 by {
            lemma_pad_props(NUM_WIDTH as nat, m as int);
        }
    }
    if b.len() - pos < NUM_WIDTH + 2 {
        return None;
    }
    let p1 = match expect_byte(b, pos, 34) {
        Some(p) => p,
        None => {
            proof {
                assert forall|m: u64|
                    (pos + NUM_WIDTH + 2 <= len && b@.subrange(pos as int, pos + NUM_WIDTH + 2)
                        == spec_num(m)) implies false by {
                    assert(b@[pos as int] == spec_num(m)[0]);
                }
            }
            return None;
        },
    };
    let v = match parse_pad(b, p1) {
        Some(v) => v,
        None => {
            proof {
                assert forall|m: u64|
                    (pos + NUM_WIDTH + 2 <= len && b@.subrange(pos as int, pos + NUM_WIDTH + 2)
                        == spec_num(m)) implies false by {
                    lemma_pad_props(NUM_WIDTH as nat, m as int);
                    lemma_sub_slice(
                        b@,
                        pos as int,
                        pos + NUM_WIDTH + 2,
                        spec_num(m),
                        1,
                        NUM_WIDTH + 1,
                    );
                    assert(spec_num(m).subrange(1, NUM_WIDTH + 1) =~= pad(
                        NUM_WIDTH as nat,
                        m as int,
                    ));
                }
            }
            return None;
        },
    };
    let p2 = match expect_byte(b, pos + NUM_WIDTH + 1, 34) {
        Some(p) => p,
        None => {
            proof {
                assert forall|m: u64|
                    (pos + NUM_WIDTH + 2 <= len && b@.subrange(pos as int, pos + NUM_WIDTH + 2)
                        == spec_num(m)) implies false by {
                    lemma_pad_props(NUM_WIDTH as nat, m as int);
                    lemma_sub_index(b@, pos as int, pos + NUM_WIDTH + 2, spec_num(m));
                    assert(b@[pos + NUM_WIDTH + 1] == spec_num(m)[NUM_WIDTH + 1]);
                }
            }
            return None;
        },
    };
    proof {
        lemma_pad_props(NUM_WIDTH as nat, v as int);
        assert(b@.subrange(pos as int, pos + NUM_WIDTH + 2) =~= spec_num(v));
        assert forall|m: u64|
            (pos + NUM_WIDTH + 2 <= len && b@.subrange(pos as int, pos + NUM_WIDTH + 2) == spec_num(
                m,
            )) implies Some((v, (pos + NUM_WIDTH + 2) as usize)) == Some::<(u64, usize)>(
            (m, (pos + NUM_WIDTH + 2) as usize),
        ) by {
            lemma_pad_props(NUM_WIDTH as nat, m as int);
            lemma_sub_slice(b@, pos as int, pos + NUM_WIDTH + 2, spec_num(m), 1, NUM_WIDTH + 1);
            assert(spec_num(m).subrange(1, NUM_WIDTH + 1) =~= pad(NUM_WIDTH as nat, m as int));
            lemma_pow10_width();
            lemma_small_mod(m as nat, pow10(NUM_WIDTH as nat) as nat);
            lemma_small_mod(v as nat, pow10(NUM_WIDTH as nat) as nat);
            assert(digits_value(pad(NUM_WIDTH as nat, m as int)) == m);
            assert(digits_value(pad(NUM_WIDTH as nat, v as int)) == v);
        }
    }
    Some((v, pos + NUM_WIDTH + 2))
}

/// The rendered length of a per-workload group.
pub open spec fn group_len(g: Option<GroupStats>) -> int {
    spec_ser_group(g).len() as int
}

pub proof fn lemma_group_len(g: Option<GroupStats>)
    ensures
        g is None ==> group_len(g) == 4,
        g matches Some(gs) ==> group_len(g) == 2 * NUM_WIDTH + 7,
        spec_ser_group(g).len() == group_len(g),
{
    match g {
        Option::None => {},
        Option::Some(gs) => {
            lemma_pad_props(NUM_WIDTH as nat, gs.committed as int);
            lemma_pad_props(NUM_WIDTH as nat, gs.failed as int);
        },
    }
}

/// What a canonical group document pins down, byte by byte.
pub proof fn lemma_group_hyp(b: Seq<u8>, pos: int, g: Option<GroupStats>)
    requires
        0 <= pos,
        pos + group_len(g) <= b.len(),
        b.subrange(pos, pos + group_len(g)) == spec_ser_group(g),
    ensures
        g is None ==> b[pos] == 110 && b[pos + 1] == 117 && b[pos + 2] == 108 && b[pos + 3] == 108,
        g matches Some(gs) ==> {
            &&& b[pos] == 91
            &&& b.subrange(pos + 1, pos + NUM_WIDTH + 3) == spec_num(gs.committed)
            &&& b[pos + NUM_WIDTH + 3] == 44
            &&& b.subrange(pos + NUM_WIDTH + 4, pos + 2 * NUM_WIDTH + 6) == spec_num(gs.failed)
            &&& b[pos + 2 * NUM_WIDTH + 6] == 93
        },
{
    lemma_group_len(g);
    lemma_sub_index(b, pos, pos + group_len(g), spec_ser_group(g));
    match g {
        Option::None => {},
        Option::Some(gs) => {
            lemma_pad_props(NUM_WIDTH as nat, gs.committed as int);
            lemma_pad_props(NUM_WIDTH as nat, gs.failed as int);
            lemma_sub_slice(
                b,
                pos,
                pos + group_len(g),
                spec_ser_group(g),
                1,
                NUM_WIDTH + 3,
            );
            assert(spec_ser_group(g).subrange(1, NUM_WIDTH + 3) =~= spec_num(gs.committed));
            lemma_sub_slice(
                b,
                pos,
                pos + group_len(g),
                spec_ser_group(g),
                NUM_WIDTH + 4,
                2 * NUM_WIDTH + 6,
            );
            assert(spec_ser_group(g).subrange(NUM_WIDTH + 4, 2 * NUM_WIDTH + 6) =~= spec_num(
                gs.failed,
            ));
            assert(b[pos + 0] == spec_ser_group(g)[0]);
            assert(b[pos + (NUM_WIDTH + 3)] == spec_ser_group(g)[NUM_WIDTH + 3]);
            assert(b[pos + (2 * NUM_WIDTH + 6)] == spec_ser_group(g)[2 * NUM_WIDTH + 6]);
            assert(spec_ser_group(g)[0] == 91);
            assert(spec_ser_group(g)[NUM_WIDTH + 3] == 44);
            assert(spec_ser_group(g)[2 * NUM_WIDTH + 6] == 93);
        },
    }
}

/// Consumes one rendered per-workload group.
fn parse_group(b: &Vec<u8>, pos: usize) -> (r: Option<(Option<GroupStats>, usize)>)
    requires
        pos <= b@.len(),
    ensures
        r matches Some(p) ==> p.1 <= b@.len() && p.1 == pos + group_len(p.0) && b@.subrange(
            pos as int,
            p.1 as int,
        ) == spec_ser_group(p.0),
        forall|g: Option<GroupStats>|
            (pos + group_len(g) <= b@.len() && b@.subrange(pos as int, pos + group_len(g))
                == spec_ser_group(g)) ==> r == Some((g, (pos + group_len(g)) as usize)),
{
    let ghost len = b@.len() as int;
    proof {
        assert forall|g: Option<GroupStats>| true implies #[trigger] spec_ser_group(g).len()
            == group_len(g) by {
            lemma_group_len(g);
        }
    }
    if pos < b.len() && b[pos] == 110 {
        // A `null` group: the remaining three bytes must follow.
        let r1 = expect_byte(b, pos + 1, 117);
        let r2 = match r1 {
            Some(p) => expect_byte(b, p, 108),
            None => None,
        };
        let r3 = match r2 {
            Some(p) => expect_byte(b, p, 108),
            None => None,
        };
        match r3 {
            Some(p) => {
                proof {
                    assert(b@.subrange(pos as int, pos + 4) =~= spec_ser_group(Option::None));
                    assert forall|g: Option<GroupStats>|
                        (pos + group_len(g) <= len && b@.subrange(pos as int, pos + group_len(g))
                            == spec_ser_group(g)) implies Some(
                        (None::<GroupStats>, (pos + 4) as usize),
                    ) == Some::<(Option<GroupStats>, usize)>(
                        (g, (pos + group_len(g)) as usize),
                    ) by {
                        lemma_group_hyp(b@, pos as int, g);
                    }
                }
                Some((None, p))
            },
            None => {
                proof {
                    assert forall|g: Option<GroupStats>|
                        (pos + group_len(g) <= len && b@.subrange(pos as int, pos + group_len(g))
                            == spec_ser_group(g)) implies false by {
                        lemma_group_hyp(b@, pos as int, g);
                    }
                }
                None
            },
        }
    } else {
        // A present group, or not a group at all.
        let r1 = expect_byte(b, pos, 91);
        let s1 = match r1 {
            Some(p) => parse_num(b, p),
            None => None,
        };
        let s2 = match s1 {
            Some((c, p)) => {
                match expect_byte(b, p, 44) {
                    Some(p2) => {
                        match parse_num(b, p2) {
                            Some((f, p3)) => {
                                match expect_byte(b, p3, 93) {
                                    Some(p4) => Some((GroupStats { committed: c, failed: f }, p4)),
                                    None => None,
                                }
                            },
                            None => None,
                        }
                    },
                    None => None,
                }
            },
            None => None,
        };
        match s2 {
            Some((gs, p)) => {
                proof {
                    lemma_group_len(Option::Some(gs));
                    lemma_pad_props(NUM_WIDTH as nat, gs.committed as int);
                    lemma_pad_props(NUM_WIDTH as nat, gs.failed as int);
                    assert(b@.subrange(pos as int, p as int) =~= spec_ser_group(Option::Some(gs)));
                    assert forall|g: Option<GroupStats>|
                        (pos + group_len(g) <= len && b@.subrange(pos as int, pos + group_len(g))
                            == spec_ser_group(g)) implies Some((Some(gs), p)) == Some::<
                        (Option<GroupStats>, usize),
                    >((g, (pos + group_len(g)) as usize)) by {
                        lemma_group_hyp(b@, pos as int, g);
                    }
                }
                Some((Some(gs), p))
            },
            None => {
                proof {
                    assert forall|g: Option<GroupStats>|
                        (pos + group_len(g) <= len && b@.subrange(pos as int, pos + group_len(g))
                            == spec_ser_group(g)) implies false by {
                        lemma_group_hyp(b@, pos as int, g);
                        lemma_group_len(g);
                    }
                }
                None
            },
        }
    }
}

/// What a canonical stats document pins down, byte by byte.
pub proof fn lemma_stats_hyp(b: Seq<u8>, s: BenchmarkStats)
    requires
        b == spec_ser_stats(s),
    ensures
        b.len() == 164 + group_len(s.shared_counter) + group_len(s.transfer_object),
        b[0] == 91,
        b.subrange(1, 23) == spec_num(s.duration_secs),
        b[23] == 44,
        b.subrange(24, 46) == spec_num(s.num_committed),
        b[46] == 44,
        b.subrange(47, 69) == spec_num(s.num_failed),
        b[69] == 44,
        b.subrange(70, 92) == spec_num(s.qps),
        b[92] == 44,
        b.subrange(93, 115) == spec_num(s.latency_p50_ms),
        b[115] == 44,
        b.subrange(116, 138) == spec_num(s.latency_p95_ms),
        b[138] == 44,
        b.subrange(139, 161) == spec_num(s.latency_p99_ms),
        b[161] == 44,
        b.subrange(162, 162 + group_len(s.shared_counter)) == spec_ser_group(s.shared_counter),
        b[162 + group_len(s.shared_counter)] == 44,
        b.subrange(
            163 + group_len(s.shared_counter),
            163 + group_len(s.shared_counter) + group_len(s.transfer_object),
        ) == spec_ser_group(s.transfer_object),
        b[163 + group_len(s.shared_counter) + group_len(s.transfer_object)] == 93,
{
    lemma_pad_props(NUM_WIDTH as nat, s.duration_secs as int);
    lemma_pad_props(NUM_WIDTH as nat, s.num_committed as int);
    lemma_pad_props(NUM_WIDTH as nat, s.num_failed as int);
    lemma_pad_props(NUM_WIDTH as nat, s.qps as int);
    lemma_pad_props(NUM_WIDTH as nat, s.latency_p50_ms as int);
    lemma_pad_props(NUM_WIDTH as nat, s.latency_p95_ms as int);
    lemma_pad_props(NUM_WIDTH as nat, s.latency_p99_ms as int);
    lemma_group_len(s.shared_counter);
    lemma_group_len(s.transfer_object);
    let g1 = group_len(s.shared_counter);
    let g2 = group_len(s.transfer_object);
    assert(b.subrange(1, 23) =~= spec_num(s.duration_secs));
    assert(b.subrange(24, 46) =~= spec_num(s.num_committed));
    assert(b.subrange(47, 69) =~= spec_num(s.num_failed));
    assert(b.subrange(70, 92) =~= spec_num(s.qps));
    assert(b.subrange(93, 115) =~= spec_num(s.latency_p50_ms));
    assert(b.subrange(116, 138) =~= spec_num(s.latency_p95_ms));
    assert(b.subrange(139, 161) =~= spec_num(s.latency_p99_ms));
    assert(b.subrange(162, 162 + g1) =~= spec_ser_group(s.shared_counter));
    assert(b.subrange(163 + g1, 163 + g1 + g2) =~= spec_ser_group(s.transfer_object));
}

/// The converse assembly: a document made of canonical pieces at their
/// canonical places is the canonical rendering of the combined value.
pub proof fn lemma_assemble(b: Seq<u8>, s: BenchmarkStats, q7: int, q8: int)
    requires
        q7 == 162 + group_len(s.shared_counter),
        q8 == q7 + 1 + group_len(s.transfer_object),
        b.len() == q8 + 1,
        b[0] == 91,
        b.subrange(1, 23) == spec_num(s.duration_secs),
        b[23] == 44,
        b.subrange(24, 46) == spec_num(s.num_committed),
        b[46] == 44,
        b.subrange(47, 69) == spec_num(s.num_failed),
        b[69] == 44,
        b.subrange(70, 92) == spec_num(s.qps),
        b[92] == 44,
        b.subrange(93, 115) == spec_num(s.latency_p50_ms),
        b[115] == 44,
        b.subrange(116, 138) == spec_num(s.latency_p95_ms),
        b[138] == 44,
        b.subrange(139, 161) == spec_num(s.latency_p99_ms),
        b[161] == 44,
        b.subrange(162, q7) == spec_ser_group(s.shared_counter),
        b[q7] == 44,
        b.subrange(q7 + 1, q8) == spec_ser_group(s.transfer_object),
        b[q8] == 93,
    ensures
        b == spec_ser_stats(s),
{
    lemma_group_len(s.shared_counter);
    lemma_group_len(s.transfer_object);
    lemma_pad_props(NUM_WIDTH as nat, s.duration_secs as int);
    lemma_pad_props(NUM_WIDTH as nat, s.num_committed as int);
    lemma_pad_props(NUM_WIDTH as nat, s.num_failed as int);
    lemma_pad_props(NUM_WIDTH as nat, s.qps as int);
    lemma_pad_props(NUM_WIDTH as nat, s.latency_p50_ms as int);
    lemma_pad_props(NUM_WIDTH as nat, s.latency_p95_ms as int);
    lemma_pad_props(NUM_WIDTH as nat, s.latency_p99_ms as int);
    lemma_sub_index(b, 1, 23, spec_num(s.duration_secs));
    lemma_sub_index(b, 24, 46, spec_num(s.num_committed));
    lemma_sub_index(b, 47, 69, spec_num(s.num_failed));
    lemma_sub_index(b, 70, 92, spec_num(s.qps));
    lemma_sub_index(b, 93, 115, spec_num(s.latency_p50_ms));
    lemma_sub_index(b, 116, 138, spec_num(s.latency_p95_ms));
    lemma_sub_index(b, 139, 161, spec_num(s.latency_p99_ms));
    lemma_sub_index(b, 162, q7, spec_ser_group(s.shared_counter));
    lemma_sub_index(b, q7 + 1, q8, spec_ser_group(s.transfer_object));
    assert(b =~= spec_ser_stats(s));
}

/// Consumes the opening bracket and the seven overall counters.
fn parse_header(b: &Vec<u8>) -> (r: Option<(u64, u64, u64, u64, u64, u64, u64)>)
    ensures
        r matches Some(t) ==> {
            &&& b@.len() >= 162
            &&& b@[0] == 91
            &&& b@.subrange(1, 23) == spec_num(t.0) && b@[23] == 44
            &&& b@.subrange(24, 46) == spec_num(t.1) && b@[46] == 44
            &&& b@.subrange(47, 69) == spec_num(t.2) && b@[69] == 44
            &&& b@.subrange(70, 92) == spec_num(t.3) && b@[92] == 44
            &&& b@.subrange(93, 115) == spec_num(t.4) && b@[115] == 44
            &&& b@.subrange(116, 138) == spec_num(t.5) && b@[138] == 44
            &&& b@.subrange(139, 161) == spec_num(t.6) && b@[161] == 44
        },
        forall|s: BenchmarkStats|
            b@ == spec_ser_stats(s) ==> r == Some(
                (
                    s.duration_secs,
                    s.num_committed,
                    s.num_failed,
                    s.qps,
                    s.latency_p50_ms,
                    s.latency_p95_ms,
                    s.latency_p99_ms,
                ),
            ),
{
    let r0 = expect_byte(b, 0, 91);
    let s1 = match r0 {
        Some(p) => parse_num(b, p),
        None => None,
    };
    let s1c = match s1 {
        Some((v, p)) => {
            match expect_byte(b, p, 44) {
                Some(p2) => Some((v, p2)),
                None => None,
            }
        },
        None => None,
    };
    let (v0, p1) = match s1c {
        Some(t) => t,
        None => {
            proof {
                assert forall|s: BenchmarkStats| b@ == spec_ser_stats(s) implies false by {
                    lemma_stats_hyp(b@, s);
                }
            }
            return None;
        },
    };
    let s2 = parse_num(b, p1);
    let s2c = match s2 {
        Some((v, p)) => {
            match expect_byte(b, p, 44) {
                Some(p2) => Some((v, p2)),
                None => None,
            }
        },
        None => None,
    };
    let (v1, p2) = match s2c {
        Some(t) => t,
        None => {
            proof {
                assert forall|s: BenchmarkStats| b@ == spec_ser_stats(s) implies false by {
                    lemma_stats_hyp(b@, s);
                }
            }
            return None;
        },
    };
    let s3 = parse_num(b, p2);
    let s3c = match s3 {
        Some((v, p)) => {
            match expect_byte(b, p, 44) {
                Some(p2) => Some((v, p2)),
                None => None,
            }
        },
        None => None,
    };
    let (v2, p3) = match s3c {
        Some(t) => t,
        None => {
            proof {
                assert forall|s: BenchmarkStats| b@ == spec_ser_stats(s) implies false by {
                    lemma_stats_hyp(b@, s);
                }
            }
            return None;
        },
    };
    let s4 = parse_num(b, p3);
    let s4c = match s4 {
        Some((v, p)) => {
            match expect_byte(b, p, 44) {
                Some(p2) => Some((v, p2)),
                None => None,
            }
        },
        None => None,
    };
    let (v3, p4) = match s4c {
        Some(t) => t,
        None => {
            proof {
                assert forall|s: BenchmarkStats| b@ == spec_ser_stats(s) implies false by {
                    lemma_stats_hyp(b@, s);
                }
            }
            return None;
        },
    };
    let s5 = parse_num(b, p4);
    let s5c = match s5 {
        Some((v, p)) => {
            match expect_byte(b, p, 44) {
                Some(p2) => Some((v, p2)),
                None => None,
            }
        },
        None => None,
    };
    let (v4, p5) = match s5c {
        Some(t) => t,
        None => {
            proof {
                assert forall|s: BenchmarkStats| b@ == spec_ser_stats(s) implies false by {
                    lemma_stats_hyp(b@, s);
                }
            }
            return None;
        },
    };
    let s6 = parse_num(b, p5);
    let s6c = match s6 {
        Some((v, p)) => {
            match expect_byte(b, p, 44) {
                Some(p2) => Some((v, p2)),
                None => None,
            }
        },
        None => None,
    };
    let (v5, p6) = match s6c {
        Some(t) => t,
        None => {
            proof {
                assert forall|s: BenchmarkStats| b@ == spec_ser_stats(s) implies false by {
                    lemma_stats_hyp(b@, s);
                }
            }
            return None;
        },
    };
    let s7 = parse_num(b, p6);
    let s7c = match s7 {
        Some((v, p)) => {
            match expect_byte(b, p, 44) {
                Some(p2) => Some((v, p2)),
                None => None,
            }
        },
        None => None,
    };
    let (v6, _p7) = match s7c {
        Some(t) => t,
        None => {
            proof {
                assert forall|s: BenchmarkStats| b@ == spec_ser_stats(s) implies false by {
                    lemma_stats_hyp(b@, s);
                }
            }
            return None;
        },
    };
    proof {
        assert forall|s: BenchmarkStats| b@ == spec_ser_stats(s) implies Some(
            (v0, v1, v2, v3, v4, v5, v6),
        ) == Some::<(u64, u64, u64, u64, u64, u64, u64)>(
            (
                s.duration_secs,
                s.num_committed,
                s.num_failed,
                s.qps,
                s.latency_p50_ms,
                s.latency_p95_ms,
                s.latency_p99_ms,
            ),
        ) by {
            lemma_stats_hyp(b@, s);
        }
    }
    Some((v0, v1, v2, v3, v4, v5, v6))
}

/// Two counters with the same rendering are equal.
pub proof fn lemma_num_injective(a: u64, b: u64)
    requires
        spec_num(a) == spec_num(b),
    ensures
        a == b,
{
    lemma_pad_props(NUM_WIDTH as nat, a as int);
    lemma_pad_props(NUM_WIDTH as nat, b as int);
    assert(pad(NUM_WIDTH as nat, a as int) =~= pad(NUM_WIDTH as nat, b as int)) by {
        assert forall|j: int| 0 <= j < NUM_WIDTH implies pad(NUM_WIDTH as nat, a as int)[j] == pad(
            NUM_WIDTH as nat,
            b as int,
        )[j] by {
            assert(spec_num(a)[j + 1] == pad(NUM_WIDTH as nat, a as int)[j]);
            assert(spec_num(b)[j + 1] == pad(NUM_WIDTH as nat, b as int)[j]);
        }
    }
    lemma_pow10_width();
    lemma_small_mod(a as nat, pow10(NUM_WIDTH as nat) as nat);
    lemma_small_mod(b as nat, pow10(NUM_WIDTH as nat) as nat);
}

/// Two groups with the same rendering are equal.
pub proof fn lemma_group_injective(a: Option<GroupStats>, b: Option<GroupStats>)
    requires
        spec_ser_group(a) == spec_ser_group(b),
    ensures
        a == b,
{
    lemma_group_len(a);
    lemma_group_len(b);
    let t = spec_ser_group(a);
    assert(t.subrange(0, group_len(a)) =~= spec_ser_group(a));
    assert(t.subrange(0, group_len(b)) =~= spec_ser_group(b));
    lemma_group_hyp(t, 0, a);
    lemma_group_hyp(t, 0, b);
    match (a, b) {
        (Option::Some(ga), Option::Some(gb)) => {
            lemma_num_injective(ga.committed, gb.committed);
            lemma_num_injective(ga.failed, gb.failed);
        },
        (Option::None, Option::None) => {},
        _ => {
            assert(t[0] == 110 && t[0] == 91);
        },
    }
}

/// The canonical persisted form is lossless: two stats values with the same
/// document are the same value.
pub proof fn lemma_canonical_form_injective(s1: BenchmarkStats, s2: BenchmarkStats)
    requires
        spec_ser_stats(s1) == spec_ser_stats(s2),
    ensures
        s1 == s2,
{
    let b = spec_ser_stats(s1);
    lemma_stats_hyp(b, s1);
    lemma_stats_hyp(b, s2);
    lemma_num_injective(s1.duration_secs, s2.duration_secs);
    lemma_num_injective(s1.num_committed, s2.num_committed);
    lemma_num_injective(s1.num_failed, s2.num_failed);
    lemma_num_injective(s1.qps, s2.qps);
    lemma_num_injective(s1.latency_p50_ms, s2.latency_p50_ms);
    lemma_num_injective(s1.latency_p95_ms, s2.latency_p95_ms);
    lemma_num_injective(s1.latency_p99_ms, s2.latency_p99_ms);
    lemma_group_len(s1.shared_counter);
    lemma_group_len(s2.shared_counter);
    if group_len(s1.shared_counter) != group_len(s2.shared_counter) {
        assert(b[162] == spec_ser_group(s1.shared_counter)[0]) by {
            lemma_sub_index(
                b,
                162,
                162 + group_len(s1.shared_counter),
                spec_ser_group(s1.shared_counter),
            );
        }
        assert(b[162] == spec_ser_group(s2.shared_counter)[0]) by {
            lemma_sub_index(
                b,
                162,
                162 + group_len(s2.shared_counter),
                spec_ser_group(s2.shared_counter),
            );
        }
    }
    lemma_group_injective(s1.shared_counter, s2.shared_counter);
    lemma_group_injective(s1.transfer_object, s2.transfer_object);
}

/// Parses the canonical persisted document back into a stats value. Exactly
/// the canonical serializations are accepted, and parsing one recovers the
/// serialized value: together with `serialize_stats` this is a lossless
/// round trip for every stats value.
#[verifier::rlimit(100)]
pub fn deserialize_stats(b: &Vec<u8>) -> (r: Option<BenchmarkStats>)
    ensures
        r matches Some(s) ==> b@ == spec_ser_stats(s),
        forall|s: BenchmarkStats| b@ == spec_ser_stats(s) ==> r == Some(s),
{
    let header = match parse_header(b) {
        Some(t) => t,
        None => {
            return None;
        },
    };
    let (v0, v1, v2, v3, v4, v5, v6) = header;
    let rg1 = parse_group(b, 162);
    let (g1, q7) = match rg1 {
        Some(p) => p,
        None => {
            proof {
                assert forall|s: BenchmarkStats| b@ == spec_ser_stats(s) implies false by {
                    lemma_stats_hyp(b@, s);
                }
            }
            return None;
        },
    };
    let c8 = expect_byte(b, q7, 44);
    let rg2 = match c8 {
        Some(p) => parse_group(b, p),
        None => None,
    };
    let (g2, q8) = match rg2 {
        Some(p) => p,
        None => {
            proof {
                assert forall|s: BenchmarkStats| b@ == spec_ser_stats(s) implies false by {
                    lemma_stats_hyp(b@, s);
                }
            }
            return None;
        },
    };
    let c9 = expect_byte(b, q8, 93);
    let q9 = match c9 {
        Some(p) => p,
        None => {
            proof {
                assert forall|s: BenchmarkStats| b@ == spec_ser_stats(s) implies false by {
                    lemma_stats_hyp(b@, s);
                }
            }
            return None;
        },
    };
    if q9 != b.len() {
        proof {
            assert forall|s: BenchmarkStats| b@ == spec_ser_stats(s) implies false by {
                lemma_stats_hyp(b@, s);
            }
        }
        return None;
    }
    let parsed = BenchmarkStats {
        duration_secs: v0,
        num_committed: v1,
        num_failed: v2,
        qps: v3,
        latency_p50_ms: v4,
        latency_p95_ms: v5,
        latency_p99_ms: v6,
        shared_counter: g1,
        transfer_object: g2,
    };
    proof {
        lemma_assemble(b@, parsed, q7 as int, q8 as int);
        assert forall|s: BenchmarkStats| b@ == spec_ser_stats(s) implies Some(parsed) == Some::<
            BenchmarkStats,
        >(s) by {
            lemma_stats_hyp(b@, s);
        }
    }
    Some(parsed)
}

} // verus!
