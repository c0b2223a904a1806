//! The Merkle path chain: reference root computation, the branch-free
//! pair selection used inside the arithmetic circuit, and the per-level
//! constraint relation with its completeness and soundness lemmas.

use vstd::prelude::*;

verus! {

use pasta_curves::Fp;
use crate::field::{
    fp_val, fadd, fsub, fmul, p_modulus, poseidon_hash2, poseidon_hash2_raw,
    fp_add, fp_sub, fp_mul, hash_two,
};

/// Canonical values of a sequence of field elements.
pub open spec fn vals_of(s: Seq<Fp>) -> Seq<nat> {
    s.map_values(|x: Fp| fp_val(x))
}

/// Direction bits of a sequence of indices, as mathematical naturals.
pub open spec fn dirs_of(s: Seq<u64>) -> Seq<nat> {
    s.map_values(|x: u64| x as nat)
}

/// One level of the Merkle chain: hash the running digest and the sibling,
/// ordered by the direction (`0`: digest on the left, else sibling first).
pub open spec fn level_digest(digest: nat, sibling: nat, dir: nat) -> nat {
    if dir == 0 {
        poseidon_hash2(digest, sibling)
    } else {
        poseidon_hash2(sibling, digest)
    }
}

/// The Merkle root reached from `leaf` along `siblings` and `dirs`;
/// index 0 is the level adjacent to the leaf.
pub open spec fn merkle_root_spec(leaf: nat, siblings: Seq<nat>, dirs: Seq<nat>) -> nat
    decreases siblings.len(),
{
    if siblings.len() == 0 {
        leaf
    } else {
        merkle_root_spec(
            level_digest(leaf, siblings[0], dirs[0]),
            siblings.drop_first(),
            dirs.drop_first(),
        )
    }
}

proof fn lemma_vals_skip_step(s: Seq<Fp>, i: int)
    requires
        0 <= i < s.len(),
    ensures
        vals_of(s.skip(i)).drop_first() == vals_of(s.skip(i + 1)),
        vals_of(s.skip(i))[0] == fp_val(s[i]),
{
    assert(vals_of(s.skip(i)).drop_first() =~= vals_of(s.skip(i + 1)));
}

proof fn lemma_dirs_skip_step(s: Seq<u64>, i: int)
    requires
        0 <= i < s.len(),
    ensures
        dirs_of(s.skip(i)).drop_first() == dirs_of(s.skip(i + 1)),
        dirs_of(s.skip(i))[0] == s[i] as nat,
{
    assert(dirs_of(s.skip(i)).drop_first() =~= dirs_of(s.skip(i + 1)));
}

/// The reference root function: the oracle that witness generation uses.
/// It mirrors the in-circuit chain with a direct conditional in place of
/// the branch-free selection.
pub fn compute_merkle_root(leaf: &Fp, elements: &Vec<Fp>, indices: &Vec<u64>) -> (r: Fp)
    requires
        elements@.len() == indices@.len(),
    ensures
        fp_val(r) == merkle_root_spec(fp_val(*leaf), vals_of(elements@), dirs_of(indices@)),
{
    let mut digest: Fp = *leaf;
    let k = elements.len();
    let mut i: usize = 0;
    proof {
        assert(elements@.skip(0) =~= elements@);
        assert(indices@.skip(0) =~= indices@);
    }
    while i < k
        invariant
            i <= k,
            k == elements@.len(),
            elements@.len() == indices@.len(),
            merkle_root_spec(
                fp_val(digest),
                vals_of(elements@.skip(i as int)),
                dirs_of(indices@.skip(i as int)),
            ) == merkle_root_spec(fp_val(*leaf), vals_of(elements@), dirs_of(indices@)),
        decreases k - i,
    {
        let sibling = elements[i];
        let next = if indices[i] == 0 {
            hash_two(digest, sibling)
        } else {
            hash_two(sibling, digest)
        };
        proof {
            lemma_vals_skip_step(elements@, i as int);
            lemma_dirs_skip_step(indices@, i as int);
        }
        digest = next;
        i = i + 1;
    }
    digest
}

/// The linear blend `a + t * (b - a)`: the branch-free multiplexer that
/// the selection gate evaluates, on canonical values.
pub open spec fn blend(a: nat, b: nat, t: nat) -> nat {
    fadd(a, fmul(t, fsub(b, a)))
}

/// The boolean gate `t * (1 - t) = 0` on the direction cell. Over the
/// prime field this polynomial identity holds exactly for `t` in `{0, 1}`.
pub open spec fn boolean_gate_holds(t: nat) -> bool {
    fmul(t, fsub(1, t)) == 0
}

/// The blend is a multiplexer: for a boolean selector it returns one of
/// its two inputs unchanged. This is the identity that lets one fixed
/// circuit shape follow a left or a right branch at every level.
pub proof fn lemma_blend_select(a: nat, b: nat, t: nat)
    requires
        a < p_modulus(),
        b < p_modulus(),
        t == 0 || t == 1,
    ensures
        blend(a, b, t) == if t == 0 { a } else { b },
{
    let p = p_modulus() as int;
    if t == 0 {
        assert(fmul(0, fsub(b, a)) == 0) by {
            vstd::arithmetic::div_mod::lemma_small_mod(0, p_modulus());
        }
        assert(fadd(a, 0) == a) by {
            vstd::arithmetic::div_mod::lemma_small_mod(a, p_modulus());
        }
    } else {
        let d = fsub(b, a);
        assert(0 <= (b - a) % p < p) by {
            vstd::arithmetic::div_mod::lemma_mod_bound(b - a, p);
        }
        assert(fmul(1, d) == d) by {
            vstd::arithmetic::div_mod::lemma_small_mod(d, p_modulus());
        }
        assert((a + d) as int % p == (a + (b - a)) % p) by {
            vstd::arithmetic::div_mod::lemma_add_mod_noop(a as int, b - a, p);
            vstd::arithmetic::div_mod::lemma_small_mod(a, p_modulus());
        }
        assert((b as int) % p == b) by {
            vstd::arithmetic::div_mod::lemma_small_mod(b, p_modulus());
        }
    }
}

/// For a boolean selector the boolean gate is satisfied.
pub proof fn lemma_boolean_gate(t: nat)
    requires
        t == 0 || t == 1,
    ensures
        boolean_gate_holds(t),
{
    if t == 0 {
        assert(fmul(0, fsub(1, 0)) == 0) by {
            vstd::arithmetic::div_mod::lemma_small_mod(0, p_modulus());
        }
    } else {
        assert(fsub(1, 1) == 0) by {
            vstd::arithmetic::div_mod::lemma_small_mod(0, p_modulus());
        }
        assert(fmul(1, 0) == 0) by {
            vstd::arithmetic::div_mod::lemma_small_mod(0, p_modulus());
        }
    }
}

/// The ordered pair handed to the per-level hash, computed exactly as the
/// selection gate computes it: two linear blends driven by the direction
/// cell, with no control flow.
pub fn select_pair(digest: Fp, sibling: Fp, direction: Fp) -> (r: (Fp, Fp))
    ensures
        fp_val(r.0) == blend(fp_val(digest), fp_val(sibling), fp_val(direction)),
        fp_val(r.1) == blend(fp_val(sibling), fp_val(digest), fp_val(direction)),
        fp_val(r.0) < p_modulus(),
        fp_val(r.1) < p_modulus(),
{
    let left = fp_add(digest, fp_mul(direction, fp_sub(sibling, digest)));
    let right = fp_add(sibling, fp_mul(direction, fp_sub(digest, sibling)));
    (left, right)
}

/// The cells assigned at one level of the Merkle path region: the running
/// digest, the private sibling and direction, the two selected operands,
/// and the digest cell of the next level.
pub struct LevelCells {
    pub digest_in: nat,
    pub sibling: nat,
    pub direction: nat,
    pub left: nat,
    pub right: nat,
    pub digest_out: nat,
}

/// The polynomial constraints of one level: the boolean gate on the
/// direction, the two blend equations of the selection gate, and the
/// hash chain equation tying the level to the next digest.
pub open spec fn level_constraints_hold(c: LevelCells) -> bool {
    &&& boolean_gate_holds(c.direction)
    &&& c.left == blend(c.digest_in, c.sibling, c.direction)
    &&& c.right == blend(c.sibling, c.digest_in, c.direction)
    &&& c.digest_out == poseidon_hash2(c.left, c.right)
}

/// Well-formedness of a trace: every witness cell holds a field element
/// (canonical value) and every direction cell is boolean. Over the prime
/// field the boolean gate forces booleanity, since a product vanishes
/// only on a zero factor; the model does not reason about primality,
/// so it asks for booleanity directly.
pub open spec fn trace_wf(trace: Seq<LevelCells>) -> bool {
    forall|i: int|
        0 <= i < trace.len() ==> {
            &&& (#[trigger] trace[i]).sibling < p_modulus()
            &&& (trace[i].direction == 0 || trace[i].direction == 1)
        }
}

/// Every level of the trace satisfies its constraints.
pub open spec fn trace_satisfied(trace: Seq<LevelCells>) -> bool {
    forall|i: int| 0 <= i < trace.len() ==> level_constraints_hold(#[trigger] trace[i])
}

/// The copy-constraints of the chain: the first digest cell equals the
/// leaf, each level starts from the previous level's output, and the last
/// output is the cell exposed as the root.
pub open spec fn trace_chains(leaf: nat, trace: Seq<LevelCells>, root: nat) -> bool {
    &&& if trace.len() == 0 {
        root == leaf
    } else {
        trace[0].digest_in == leaf && root == trace[trace.len() - 1].digest_out
    }
    &&& forall|i: int|
        0 < i < trace.len() ==> (#[trigger] trace[i]).digest_in == trace[i - 1].digest_out
}

/// The sibling cells of a trace.
pub open spec fn trace_siblings(trace: Seq<LevelCells>) -> Seq<nat> {
    trace.map_values(|c: LevelCells| c.sibling)
}

/// The direction cells of a trace.
pub open spec fn trace_directions(trace: Seq<LevelCells>) -> Seq<nat> {
    trace.map_values(|c: LevelCells| c.direction)
}

/// Appending one level to the path hashes the previous root with the new
/// sibling, in the order chosen by the new direction.
pub proof fn lemma_root_push(leaf: nat, sibs: Seq<nat>, dirs: Seq<nat>, x: nat, y: nat)
    requires
        sibs.len() == dirs.len(),
    ensures
        merkle_root_spec(leaf, sibs.push(x), dirs.push(y)) == level_digest(
            merkle_root_spec(leaf, sibs, dirs),
            x,
            y,
        ),
    decreases sibs.len(),
{
    let s1 = sibs.push(x);
    let d1 = dirs.push(y);
    if sibs.len() == 0 {
        assert(s1[0] == x);
        assert(d1[0] == y);
        assert(s1.drop_first() =~= Seq::<nat>::empty());
        assert(d1.drop_first() =~= Seq::<nat>::empty());
        assert(merkle_root_spec(leaf, s1, d1) == merkle_root_spec(
            level_digest(leaf, x, y),
            s1.drop_first(),
            d1.drop_first(),
        ));
        assert(merkle_root_spec(
            level_digest(leaf, x, y),
            Seq::<nat>::empty(),
            Seq::<nat>::empty(),
        ) == level_digest(leaf, x, y));
    } else {
        assert(s1[0] == sibs[0]);
        assert(d1[0] == dirs[0]);
        assert(s1.drop_first() =~= sibs.drop_first().push(x));
        assert(d1.drop_first() =~= dirs.drop_first().push(y));
        assert(merkle_root_spec(leaf, s1, d1) == merkle_root_spec(
            level_digest(leaf, sibs[0], dirs[0]),
            sibs.drop_first().push(x),
            dirs.drop_first().push(y),
        ));
        lemma_root_push(
            level_digest(leaf, sibs[0], dirs[0]),
            sibs.drop_first(),
            dirs.drop_first(),
            x,
            y,
        );
    }
}

/// Every root reached from a canonical leaf is canonical: either the leaf
/// itself, or the digest of a hash.
pub proof fn lemma_root_bound(leaf: nat, sibs: Seq<nat>, dirs: Seq<nat>)
    requires
        leaf < p_modulus(),
    ensures
        merkle_root_spec(leaf, sibs, dirs) < p_modulus(),
    decreases sibs.len(),
{
    if sibs.len() == 0 {
    } else {
        let next = level_digest(leaf, sibs[0], dirs[0]);
        assert(next < p_modulus()) by {
            vstd::arithmetic::div_mod::lemma_mod_bound(
                poseidon_hash2_raw(leaf, sibs[0]) as int,
                p_modulus() as int,
            );
            vstd::arithmetic::div_mod::lemma_mod_bound(
                poseidon_hash2_raw(sibs[0], leaf) as int,
                p_modulus() as int,
            );
        }
        lemma_root_bound(next, sibs.drop_first(), dirs.drop_first());
    }
}

/// The trace that honest synthesis assigns for a given witness: level `i`
/// starts from the root of the first `i` levels and hashes the selected
/// pair into the root of the first `i + 1` levels.
pub open spec fn honest_trace(leaf: nat, sibs: Seq<nat>, dirs: Seq<nat>) -> Seq<LevelCells> {
    Seq::new(
        sibs.len(),
        |i: int|
            LevelCells {
                digest_in: merkle_root_spec(leaf, sibs.take(i), dirs.take(i)),
                sibling: sibs[i],
                direction: dirs[i],
                left: if dirs[i] == 0 {
                    merkle_root_spec(leaf, sibs.take(i), dirs.take(i))
                } else {
                    sibs[i]
                },
                right: if dirs[i] == 0 {
                    sibs[i]
                } else {
                    merkle_root_spec(leaf, sibs.take(i), dirs.take(i))
                },
                digest_out: merkle_root_spec(leaf, sibs.take(i + 1), dirs.take(i + 1)),
            },
    )
}

/// Completeness of the constraint relation: for any canonical witness
/// with boolean directions, the honestly assigned trace is well formed,
/// satisfies every gate, and chains the leaf to the reference root. A
/// proof attempt with this witness therefore always satisfies the system.
pub proof fn lemma_honest_trace_complete(leaf: nat, sibs: Seq<nat>, dirs: Seq<nat>)
    requires
        leaf < p_modulus(),
        sibs.len() == dirs.len(),
        forall|i: int| 0 <= i < sibs.len() ==> #[trigger] sibs[i] < p_modulus(),
        forall|i: int| 0 <= i < dirs.len() ==> #[trigger] dirs[i] == 0 || dirs[i] == 1,
    ensures
        trace_wf(honest_trace(leaf, sibs, dirs)),
        trace_satisfied(honest_trace(leaf, sibs, dirs)),
        trace_chains(leaf, honest_trace(leaf, sibs, dirs), merkle_root_spec(leaf, sibs, dirs)),
        trace_siblings(honest_trace(leaf, sibs, dirs)) == sibs,
        trace_directions(honest_trace(leaf, sibs, dirs)) == dirs,
{
    let t = honest_trace(leaf, sibs, dirs);
    assert forall|i: int| 0 <= i < t.len() implies level_constraints_hold(#[trigger] t[i]) by {
        let d_in = merkle_root_spec(leaf, sibs.take(i), dirs.take(i));
        assert(d_in < p_modulus()) by {
            lemma_root_bound(leaf, sibs.take(i), dirs.take(i));
        }
        lemma_boolean_gate(dirs[i]);
        lemma_blend_select(d_in, sibs[i], dirs[i]);
        lemma_blend_select(sibs[i], d_in, dirs[i]);
        assert(sibs.take(i + 1) =~= sibs.take(i).push(sibs[i]));
        assert(dirs.take(i + 1) =~= dirs.take(i).push(dirs[i]));
        lemma_root_push(leaf, sibs.take(i), dirs.take(i), sibs[i], dirs[i]);
    }
    if t.len() > 0 {
        assert(sibs.take(0) =~= Seq::<nat>::empty());
        assert(dirs.take(0) =~= Seq::<nat>::empty());
        assert(sibs.take(sibs.len() as int) =~= sibs);
        assert(dirs.take(dirs.len() as int) =~= dirs);
    }
    assert(trace_siblings(t) =~= sibs);
    assert(trace_directions(t) =~= dirs);
}

/// Soundness of the constraint relation: any well-formed trace that
/// satisfies every gate and chains the leaf to a root value forces that
/// value to be the reference root of the siblings and directions it
/// carries. No other root admits a satisfying assignment.
pub proof fn lemma_trace_sound(leaf: nat, trace: Seq<LevelCells>, root: nat)
    requires
        leaf < p_modulus(),
        trace_wf(trace),
        trace_satisfied(trace),
        trace_chains(leaf, trace, root),
    ensures
        root == merkle_root_spec(leaf, trace_siblings(trace), trace_directions(trace)),
    decreases trace.len(),
{
    if trace.len() == 0 {
    } else {
        let c = trace[0];
        lemma_blend_select(c.digest_in, c.sibling, c.direction);
        lemma_blend_select(c.sibling, c.digest_in, c.direction);
        assert(c.digest_out == level_digest(leaf, c.sibling, c.direction));
        let leaf2 = c.digest_out;
        assert(leaf2 < p_modulus()) by {
            vstd::arithmetic::div_mod::lemma_mod_bound(
                poseidon_hash2_raw(c.left, c.right) as int,
                p_modulus() as int,
            );
        }
        let rest = trace.drop_first();
        assert(trace_chains(leaf2, rest, root)) by {
            if rest.len() > 0 {
                assert(trace[1].digest_in == trace[0].digest_out);
            }
        }
        lemma_trace_sound(leaf2, rest, root);
        assert(trace_siblings(rest) =~= trace_siblings(trace).drop_first());
        assert(trace_directions(rest) =~= trace_directions(trace).drop_first());
    }
}

/// The negative half of soundness: no well-formed satisfying trace ever
/// exposes a root other than the reference root of the siblings and
/// directions it carries.
pub proof fn lemma_wrong_root_unsatisfiable(leaf: nat, trace: Seq<LevelCells>, other: nat)
    requires
        leaf < p_modulus(),
        trace_wf(trace),
        trace_satisfied(trace),
        other != merkle_root_spec(leaf, trace_siblings(trace), trace_directions(trace)),
    ensures
        !trace_chains(leaf, trace, other),
{
    if trace_chains(leaf, trace, other) {
        lemma_trace_sound(leaf, trace, other);
    }
}

/// One level as synthesis assigns it: both operands come out of the
/// selection gate's blends, whatever the direction value is.
pub open spec fn blend_level_digest(digest: nat, sibling: nat, dir: nat) -> nat {
    poseidon_hash2(blend(digest, sibling, dir), blend(sibling, digest, dir))
}

/// The digest chain exactly as the in-circuit synthesis assigns it,
/// level by level through the selection gate.
pub open spec fn blend_root_spec(leaf: nat, siblings: Seq<nat>, dirs: Seq<nat>) -> nat
    decreases siblings.len(),
{
    if siblings.len() == 0 {
        leaf
    } else {
        blend_root_spec(
            blend_level_digest(leaf, siblings[0], dirs[0]),
            siblings.drop_first(),
            dirs.drop_first(),
        )
    }
}

/// Agreement: for canonical witnesses with boolean directions, the
/// digest assigned in-circuit through the selection gate equals the
/// reference root computed with a direct conditional.
pub proof fn lemma_blend_root_agrees(leaf: nat, sibs: Seq<nat>, dirs: Seq<nat>)
    requires
        leaf < p_modulus(),
        sibs.len() == dirs.len(),
        forall|i: int| 0 <= i < sibs.len() ==> #[trigger] sibs[i] < p_modulus(),
        forall|i: int| 0 <= i < dirs.len() ==> #[trigger] dirs[i] == 0 || dirs[i] == 1,
    ensures
        blend_root_spec(leaf, sibs, dirs) == merkle_root_spec(leaf, sibs, dirs),
    decreases sibs.len(),
{
    if sibs.len() == 0 {
    } else {
        lemma_blend_select(leaf, sibs[0], dirs[0]);
        lemma_blend_select(sibs[0], leaf, dirs[0]);
        let next = level_digest(leaf, sibs[0], dirs[0]);
        assert(blend_level_digest(leaf, sibs[0], dirs[0]) == next);
        assert(next < p_modulus()) by {
            vstd::arithmetic::div_mod::lemma_mod_bound(
                poseidon_hash2_raw(leaf, sibs[0]) as int,
                p_modulus() as int,
            );
            vstd::arithmetic::div_mod::lemma_mod_bound(
                poseidon_hash2_raw(sibs[0], leaf) as int,
                p_modulus() as int,
            );
        }
        assert(forall|i: int|
            0 <= i < sibs.drop_first().len() ==> #[trigger] sibs.drop_first()[i] < p_modulus());
        assert(forall|i: int|
            0 <= i < dirs.drop_first().len() ==> #[trigger] dirs.drop_first()[i] == 0
                || dirs.drop_first()[i] == 1);
        lemma_blend_root_agrees(next, sibs.drop_first(), dirs.drop_first());
    }
}

/// Identity at depth zero: with no levels the root is the leaf itself.
pub proof fn lemma_depth_zero_identity(leaf: nat)
    ensures
        merkle_root_spec(leaf, Seq::<nat>::empty(), Seq::<nat>::empty()) == leaf,
{
}

/// Determinism of the reference root: the result is a function of the
/// leaf, siblings and directions alone, so two computations over the same
/// inputs agree.
pub proof fn lemma_root_deterministic(
    r1: Fp,
    r2: Fp,
    leaf: nat,
    sibs: Seq<nat>,
    dirs: Seq<nat>,
)
    requires
        fp_val(r1) == merkle_root_spec(leaf, sibs, dirs),
        fp_val(r2) == merkle_root_spec(leaf, sibs, dirs),
    ensures
        fp_val(r1) == fp_val(r2),
{
}

} // verus!
