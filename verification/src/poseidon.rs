//! The Poseidon permutation as plain field arithmetic: the round
//! schedule (half the full rounds, the partial rounds, the remaining
//! full rounds), the per-round constant addition, S-box and MDS mixing,
//! and the rate-2 constant-length hash built on one permutation call.
//!
//! This is the value-level model of what the in-circuit Poseidon gadget
//! assigns row by row; its output is checked against the canonical
//! primitive by the conformance tests.

use vstd::prelude::*;

verus! {

use pasta_curves::Fp;
use crate::field::{fp_val, fadd, fmul, fpow5, p_modulus, fp_add, fp_mul, fp_from_u64};
use crate::params::{P128Pow5T3, PermutationSpec};

/// The fixed 3-element Poseidon state: two rate slots and one capacity
/// slot, mutated only by the round function.
#[derive(Clone, Copy)]
pub struct PoseidonState {
    pub s0: Fp,
    pub s1: Fp,
    pub s2: Fp,
}

impl PoseidonState {
    /// The canonical values of the three state slots.
    pub open spec fn vals(&self) -> Seq<nat> {
        seq![fp_val(self.s0), fp_val(self.s1), fp_val(self.s2)]
    }
}

/// Row `i` of the MDS matrix dotted with the state, accumulated left to
/// right as the mixing layer computes it.
pub open spec fn mix_row(m: Seq<Seq<nat>>, s: Seq<nat>, i: int) -> nat {
    fadd(fadd(fmul(m[i][0], s[0]), fmul(m[i][1], s[1])), fmul(m[i][2], s[2]))
}

/// The MDS mixing layer: the state multiplied by the 3x3 matrix.
pub open spec fn mix(m: Seq<Seq<nat>>, s: Seq<nat>) -> Seq<nat> {
    seq![mix_row(m, s, 0), mix_row(m, s, 1), mix_row(m, s, 2)]
}

/// A full round: add the round constants, apply the S-box to all three
/// slots, then mix.
pub open spec fn full_round_spec(s: Seq<nat>, rc: Seq<nat>, m: Seq<Seq<nat>>) -> Seq<nat> {
    mix(m, seq![fpow5(fadd(s[0], rc[0])), fpow5(fadd(s[1], rc[1])), fpow5(fadd(s[2], rc[2]))])
}

/// A partial round: add the round constants, apply the S-box to the
/// first slot only, then mix.
pub open spec fn partial_round_spec(s: Seq<nat>, rc: Seq<nat>, m: Seq<Seq<nat>>) -> Seq<nat> {
    mix(m, seq![fpow5(fadd(s[0], rc[0])), fadd(s[1], rc[1]), fadd(s[2], rc[2])])
}

/// Whether round `r` of the schedule is full: the first and the last
/// `rf / 2` rounds are, the `rp` rounds in between are partial.
pub open spec fn is_full_round(rf: nat, rp: nat, r: int) -> bool {
    r < rf / 2 || r >= rf / 2 + rp
}

/// The state after the first `n` rounds of the schedule.
pub open spec fn rounds_spec(
    s: Seq<nat>,
    rc: Seq<Seq<nat>>,
    m: Seq<Seq<nat>>,
    rf: nat,
    rp: nat,
    n: int,
) -> Seq<nat>
    decreases n,
{
    if n <= 0 {
        s
    } else {
        let prev = rounds_spec(s, rc, m, rf, rp, n - 1);
        if is_full_round(rf, rp, n - 1) {
            full_round_spec(prev, rc[n - 1], m)
        } else {
            partial_round_spec(prev, rc[n - 1], m)
        }
    }
}

/// The full permutation: every round of the schedule, in order.
pub open spec fn permute_spec(
    s: Seq<nat>,
    rc: Seq<Seq<nat>>,
    m: Seq<Seq<nat>>,
    rf: nat,
    rp: nat,
) -> Seq<nat> {
    rounds_spec(s, rc, m, rf, rp, rc.len() as int)
}

/// Applies the Poseidon permutation to the state, one round per
/// constant row, exactly as [`rounds_spec`] describes it.
pub fn permute(state: PoseidonState, params: &PermutationSpec) -> (r: PoseidonState)
    requires
        params.wf(),
    ensures
        r.vals() == permute_spec(
            state.vals(),
            params.rc_vals(),
            params.mds_vals(),
            params.full_rounds as nat,
            params.partial_rounds as nat,
        ),
{
    let init = state;
    let mut cur = state;
    let n = params.round_constants.len();
    let half = params.full_rounds / 2;
    let mut i: usize = 0;
    while i < n
        invariant
            params.wf(),
            i <= n,
            n == params.round_constants@.len(),
            half == params.full_rounds / 2,
            cur.vals() == rounds_spec(
                init.vals(),
                params.rc_vals(),
                params.mds_vals(),
                params.full_rounds as nat,
                params.partial_rounds as nat,
                i as int,
            ),
        decreases n - i,
    {
        let rc_row = &params.round_constants[i];
        let a0 = fp_add(cur.s0, rc_row[0]);
        let a1 = fp_add(cur.s1, rc_row[1]);
        let a2 = fp_add(cur.s2, rc_row[2]);
        let is_full = i < half || i >= half + params.partial_rounds;
        let (t0, t1, t2) = if is_full {
            (P128Pow5T3::sbox(a0), P128Pow5T3::sbox(a1), P128Pow5T3::sbox(a2))
        } else {
            (P128Pow5T3::sbox(a0), a1, a2)
        };
        let m0 = &params.mds[0];
        let m1 = &params.mds[1];
        let m2 = &params.mds[2];
        let o0 = fp_add(fp_add(fp_mul(m0[0], t0), fp_mul(m0[1], t1)), fp_mul(m0[2], t2));
        let o1 = fp_add(fp_add(fp_mul(m1[0], t0), fp_mul(m1[1], t1)), fp_mul(m1[2], t2));
        let o2 = fp_add(fp_add(fp_mul(m2[0], t0), fp_mul(m2[1], t1)), fp_mul(m2[2], t2));
        let next = PoseidonState { s0: o0, s1: o1, s2: o2 };
        proof {
            let rcv = params.rc_vals();
            let mv = params.mds_vals();
            let rf = params.full_rounds as nat;
            let rp = params.partial_rounds as nat;
            assert(rcv[i as int] == crate::params::row_vals(params.round_constants@[i as int]@));
            assert(mv[0] == crate::params::row_vals(params.mds@[0]@));
            assert(mv[1] == crate::params::row_vals(params.mds@[1]@));
            assert(mv[2] == crate::params::row_vals(params.mds@[2]@));
            assert(is_full == is_full_round(rf, rp, i as int));
            if is_full {
                assert(next.vals() =~= full_round_spec(cur.vals(), rcv[i as int], mv));
            } else {
                assert(next.vals() =~= partial_round_spec(cur.vals(), rcv[i as int], mv));
            }
            assert(next.vals() == rounds_spec(
                init.vals(),
                rcv,
                mv,
                rf,
                rp,
                i as int + 1,
            ));
        }
        cur = next;
        i = i + 1;
    }
    cur
}

/// The capacity tag of the rate-2 constant-length domain: the message
/// length 2 shifted into the high half, `2 * 2^64`.
pub open spec fn rate2_capacity_tag() -> nat {
    0x20000000000000000nat
}

/// The capacity tag as a field element, assembled from 64-bit parts.
pub fn capacity_element() -> (r: Fp)
    ensures
        fp_val(r) == rate2_capacity_tag(),
{
    let r = fp_mul(fp_from_u64(0x8000000000000000), fp_from_u64(4));
    proof {
        vstd::arithmetic::div_mod::lemma_small_mod(rate2_capacity_tag(), p_modulus());
    }
    r
}

/// The digest of the rate-2 hash: the state starts as the two message
/// words beside the capacity tag, one permutation runs, and the first
/// rate slot is squeezed.
pub open spec fn hash2_spec(
    a: nat,
    b: nat,
    rc: Seq<Seq<nat>>,
    m: Seq<Seq<nat>>,
    rf: nat,
    rp: nat,
) -> nat {
    permute_spec(seq![a, b, rate2_capacity_tag()], rc, m, rf, rp)[0]
}

/// Hashes a 2-element message: the value-level model of the Poseidon
/// hash gadget with the `ConstantLength<2>` domain.
pub fn poseidon_hash(a: Fp, b: Fp, params: &PermutationSpec) -> (r: Fp)
    requires
        params.wf(),
    ensures
        fp_val(r) == hash2_spec(
            fp_val(a),
            fp_val(b),
            params.rc_vals(),
            params.mds_vals(),
            params.full_rounds as nat,
            params.partial_rounds as nat,
        ),
{
    let state = PoseidonState { s0: a, s1: b, s2: capacity_element() };
    proof {
        assert(state.vals() =~= seq![fp_val(a), fp_val(b), rate2_capacity_tag()]);
    }
    let out = permute(state, params);
    out.s0
}

/// Poseidon conformance: under a conforming parameter bundle the
/// round-schedule model's digest is the canonical Poseidon digest, for
/// every pair of inputs.
pub proof fn lemma_poseidon_conformance(a: nat, b: nat, params: PermutationSpec)
    ensures
        params.conforms() ==> hash2_spec(
            a,
            b,
            params.rc_vals(),
            params.mds_vals(),
            params.full_rounds as nat,
            params.partial_rounds as nat,
        ) == crate::field::poseidon_hash2(a, b),
{
}

} // verus!
