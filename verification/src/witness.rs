//! Witness values: a circuit cell's content is unknown during the
//! configuration and key-generation passes and known during proving.
//! Reading through an unknown value is a usage error that the model
//! rejects, never a silent default.

use vstd::prelude::*;

verus! {

use pasta_curves::Fp;
use crate::field::fp_val;

/// An error of the synthesis model.
#[derive(Clone, Copy, Debug, PartialEq, Eq)]
pub enum CircuitError {
    /// A cell was read before its witness was known.
    UnknownWitness,
    /// Siblings and directions differ in length, or a message does not
    /// fill the rate: the circuit shape is undefined.
    ShapeMismatch,
}

/// A witness value: absent during configuration, present during proving.
#[derive(Clone, Copy)]
pub enum WitnessValue {
    Unknown,
    Known(Fp),
}

/// The canonical value carried by a known witness; meaningful only under
/// an `is Known` guard.
pub open spec fn wval(w: WitnessValue) -> nat {
    match w {
        WitnessValue::Known(v) => fp_val(v),
        WitnessValue::Unknown => 0,
    }
}

/// Whether every value of the sequence is known.
pub open spec fn all_known(s: Seq<WitnessValue>) -> bool {
    forall|i: int| 0 <= i < s.len() ==> (#[trigger] s[i]) is Known
}

/// The canonical values of a sequence of known witnesses.
pub open spec fn wvals(s: Seq<WitnessValue>) -> Seq<nat> {
    s.map_values(|w: WitnessValue| wval(w))
}

/// A column of `n` absent witnesses, as the configuration-phase copy of
/// a circuit carries: the shape is kept, the data is not.
pub fn unknown_column(n: usize) -> (r: Vec<WitnessValue>)
    ensures
        r@.len() == n,
        forall|i: int| 0 <= i < r@.len() ==> r@[i] == WitnessValue::Unknown,
{
    let mut column: Vec<WitnessValue> = Vec::new();
    let mut i: usize = 0;
    while i < n
        invariant
            i <= n,
            column@.len() == i,
            forall|j: int| 0 <= j < i ==> column@[j] == WitnessValue::Unknown,
        decreases n - i,
    {
        column.push(WitnessValue::Unknown);
        i = i + 1;
    }
    column
}

impl WitnessValue {
    /// Wraps a concrete witness.
    pub fn known(x: Fp) -> (r: Self)
        ensures
            r == WitnessValue::Known(x),
    {
        WitnessValue::Known(x)
    }

    /// The absent witness used by the configuration-only passes.
    pub fn unknown() -> (r: Self)
        ensures
            r == WitnessValue::Unknown,
    {
        WitnessValue::Unknown
    }

    /// Reads the witness; reading through an unknown value is an error,
    /// so configuration-time code cannot depend on witness data.
    pub fn read(&self) -> (r: Result<Fp, CircuitError>)
        ensures
            match *self {
                WitnessValue::Known(v) => r == Result::<Fp, CircuitError>::Ok(v),
                WitnessValue::Unknown => r == Result::<Fp, CircuitError>::Err(
                    CircuitError::UnknownWitness,
                ),
            },
    {
        match self {
            WitnessValue::Known(v) => Ok(*v),
            WitnessValue::Unknown => Err(CircuitError::UnknownWitness),
        }
    }
}

} // verus!
