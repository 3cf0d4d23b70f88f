//! The per-batch invocation trampolines.
//!
//! The engine calls a registered function once per batch of rows. A
//! zero-argument function is called once and its single result is
//! broadcast to every row of the output column; the two-argument function
//! is called once per row on that row's inputs — genuinely elementwise,
//! never a broadcast. A trampoline writes exactly one output cell per row
//! of the batch: `n` cells for a batch of `n` rows, none for an empty
//! batch. There is no error path: the trampolines are total on every
//! batch their preconditions admit.

use vstd::prelude::*;

use crate::generators::{BoolGen, FloatGen, IntGen, PairGen, TextGen};
use crate::payload::NativeFn;

verus! {

/// The five trampoline shapes, one per return kind and arity.
#[derive(Debug, Clone, Copy, PartialEq, Eq, Structural)]
pub enum TrampolineKind {
    BroadcastText,
    BroadcastInteger,
    BroadcastFloat,
    BroadcastBoolean,
    ElementwisePair,
}

/// One batch of rows as the engine presents it: a row count and, for
/// two-argument functions, the two read-only `Float64` input columns,
/// one cell per row, carried as bit patterns.
pub struct Batch {
    pub rows: usize,
    pub input_a: Vec<u64>,
    pub input_b: Vec<u64>,
}

impl Batch {
    /// The engine hands every input column with exactly one cell per
    /// row of the batch.
    pub open spec fn wf(self) -> bool {
        self.input_a@.len() == self.rows && self.input_b@.len() == self.rows
    }

    /// A batch with no input columns, for zero-argument functions.
    pub fn zero_arg(rows: usize) -> (b: Batch)
        ensures
            b.wf(),
            b.rows == rows,
    {
        let mut input_a: Vec<u64> = Vec::new();
        let mut input_b: Vec<u64> = Vec::new();
        let mut i: usize = 0;
        while i < rows
            invariant
                i <= rows,
                input_a@.len() == i,
                input_b@.len() == i,
            decreases rows - i,
        {
            input_a.push(0);
            input_b.push(0);
            i += 1;
        }
        Batch { rows, input_a, input_b }
    }

    /// A batch of two `Float64` input columns of equal length.
    pub fn two_arg(input_a: Vec<u64>, input_b: Vec<u64>) -> (b: Batch)
        requires
            input_a@.len() == input_b@.len(),
        ensures
            b.wf(),
            b.rows == input_a@.len(),
            b.input_a == input_a,
            b.input_b == input_b,
    {
        let rows = input_a.len();
        Batch { rows, input_a, input_b }
    }
}

/// One filled output column, tagged by the kind of its cells.
#[derive(Debug, Clone, PartialEq, Eq)]
pub enum ColumnData {
    Text(Vec<String>),
    Integer64(Vec<i64>),
    Float64(Vec<u64>),
    Boolean(Vec<bool>),
}

impl ColumnData {
    /// Number of cells written into the column.
    pub open spec fn spec_len(self) -> nat {
        match self {
            ColumnData::Text(c) => c@.len(),
            ColumnData::Integer64(c) => c@.len(),
            ColumnData::Float64(c) => c@.len(),
            ColumnData::Boolean(c) => c@.len(),
        }
    }

    /// Number of cells written into the column.
    pub fn len(&self) -> (n: usize)
        ensures
            n == self.spec_len(),
    {
        match self {
            ColumnData::Text(c) => c.len(),
            ColumnData::Integer64(c) => c.len(),
            ColumnData::Float64(c) => c.len(),
            ColumnData::Boolean(c) => c.len(),
        }
    }
}

/// Invoke a zero-argument text function for a batch of `rows` rows:
/// call it once, broadcast the single result.
pub fn run_broadcast_text(gen: &TextGen, rows: usize) -> (out: Vec<String>)
    ensures
        out@.len() == rows,
        forall|i: int| 0 <= i < rows ==> gen.post(#[trigger] out@[i]@),
        forall|i: int, j: int| 0 <= i < rows && 0 <= j < rows ==> out@[i]@ == out@[j]@,
{
    let value = gen.call();
    let mut out: Vec<String> = Vec::new();
    let mut i: usize = 0;
    while i < rows
        invariant
            i <= rows,
            out@.len() == i,
            gen.post(value@),
            forall|k: int| 0 <= k < i ==> #[trigger] out@[k]@ == value@,
        decreases rows - i,
    {
        out.push(value.clone());
        i += 1;
    }
    out
}

/// Invoke a zero-argument integer function for a batch of `rows` rows:
/// call it once, broadcast the single result.
pub fn run_broadcast_integer(gen: &IntGen, rows: usize) -> (out: Vec<i64>)
    ensures
        out@.len() == rows,
        forall|i: int| 0 <= i < rows ==> gen.post(#[trigger] out@[i]),
        forall|i: int, j: int| 0 <= i < rows && 0 <= j < rows ==> out@[i] == out@[j],
{
    let value = gen.call();
    let mut out: Vec<i64> = Vec::new();
    let mut i: usize = 0;
    while i < rows
        invariant
            i <= rows,
            out@.len() == i,
            gen.post(value),
            forall|k: int| 0 <= k < i ==> #[trigger] out@[k] == value,
        decreases rows - i,
    {
        out.push(value);
        i += 1;
    }
    out
}

/// Invoke a zero-argument float function for a batch of `rows` rows:
/// call it once, broadcast the single result (as bit patterns).
pub fn run_broadcast_float(gen: &FloatGen, rows: usize) -> (out: Vec<u64>)
    ensures
        out@.len() == rows,
        forall|i: int| 0 <= i < rows ==> gen.post(#[trigger] out@[i]),
        forall|i: int, j: int| 0 <= i < rows && 0 <= j < rows ==> out@[i] == out@[j],
{
    let value = gen.call();
    let mut out: Vec<u64> = Vec::new();
    let mut i: usize = 0;
    while i < rows
        invariant
            i <= rows,
            out@.len() == i,
            gen.post(value),
            forall|k: int| 0 <= k < i ==> #[trigger] out@[k] == value,
        decreases rows - i,
    {
        out.push(value);
        i += 1;
    }
    out
}

/// Invoke a zero-argument boolean function for a batch of `rows` rows:
/// call it once, broadcast the single result.
pub fn run_broadcast_boolean(gen: &BoolGen, rows: usize) -> (out: Vec<bool>)
    ensures
        out@.len() == rows,
        forall|i: int| 0 <= i < rows ==> gen.post(#[trigger] out@[i]),
        forall|i: int, j: int| 0 <= i < rows && 0 <= j < rows ==> out@[i] == out@[j],
{
    let value = gen.call();
    let mut out: Vec<bool> = Vec::new();
    let mut i: usize = 0;
    while i < rows
        invariant
            i <= rows,
            out@.len() == i,
            gen.post(value),
            forall|k: int| 0 <= k < i ==> #[trigger] out@[k] == value,
        decreases rows - i,
    {
        out.push(value);
        i += 1;
    }
    out
}

/// Invoke a two-argument float function elementwise: for every row `i`
/// of the batch, output cell `i` is the function applied to input cell
/// `i` of column A and input cell `i` of column B — no broadcasting.
pub fn run_elementwise_pair(gen: &PairGen, input_a: &Vec<u64>, input_b: &Vec<u64>, rows: usize) -> (out: Vec<
    u64,
>)
    requires
        rows <= input_a@.len(),
        rows <= input_b@.len(),
    ensures
        out@.len() == rows,
        forall|i: int| 0 <= i < rows ==> gen.post(input_a@[i], input_b@[i], #[trigger] out@[i]),
{
    let mut out: Vec<u64> = Vec::new();
    let mut i: usize = 0;
    while i < rows
        invariant
            i <= rows,
            rows <= input_a@.len(),
            rows <= input_b@.len(),
            out@.len() == i,
            forall|k: int| 0 <= k < i ==> gen.post(input_a@[k], input_b@[k], #[trigger] out@[k]),
        decreases rows - i,
    {
        out.push(gen.call(input_a[i], input_b[i]));
        i += 1;
    }
    out
}

/// What any trampoline run guarantees of the column it filled for the
/// native function `func` on the batch `(rows, input_a, input_b)`: the
/// column carries the function's return kind, holds exactly one written
/// cell per row, a zero-argument function's single result is broadcast
/// to every row, and the two-argument function is applied elementwise.
pub open spec fn batch_post(
    func: NativeFn,
    rows: nat,
    input_a: Seq<u64>,
    input_b: Seq<u64>,
    out: ColumnData,
) -> bool {
    match func {
        NativeFn::Text0(g) => out matches ColumnData::Text(c) && c@.len() == rows && (forall|
            i: int,
        |
            0 <= i < rows ==> g.post(#[trigger] c@[i]@)) && (forall|i: int, j: int|
            0 <= i < rows && 0 <= j < rows ==> c@[i]@ == c@[j]@),
        NativeFn::Integer0(g) => out matches ColumnData::Integer64(c) && c@.len() == rows && (forall|
            i: int,
        |
            0 <= i < rows ==> g.post(#[trigger] c@[i])) && (forall|i: int, j: int|
            0 <= i < rows && 0 <= j < rows ==> c@[i] == c@[j]),
        NativeFn::Float0(g) => out matches ColumnData::Float64(c) && c@.len() == rows && (forall|
            i: int,
        |
            0 <= i < rows ==> g.post(#[trigger] c@[i])) && (forall|i: int, j: int|
            0 <= i < rows && 0 <= j < rows ==> c@[i] == c@[j]),
        NativeFn::Bool0(g) => out matches ColumnData::Boolean(c) && c@.len() == rows && (forall|
            i: int,
        |
            0 <= i < rows ==> g.post(#[trigger] c@[i])) && (forall|i: int, j: int|
            0 <= i < rows && 0 <= j < rows ==> c@[i] == c@[j]),
        NativeFn::FloatPair(g) => out matches ColumnData::Float64(c) && c@.len() == rows && (forall|
            i: int,
        |
            0 <= i < rows ==> g.post(input_a[i], input_b[i], #[trigger] c@[i])),
    }
}

/// Run the trampoline that matches `func` on one batch and hand back the
/// filled output column.
pub fn run_trampoline(func: &NativeFn, batch: &Batch) -> (out: ColumnData)
    requires
        batch.wf(),
    ensures
        batch_post(*func, batch.rows as nat, batch.input_a@, batch.input_b@, out),
{
    match func {
        NativeFn::Text0(g) => ColumnData::Text(run_broadcast_text(g, batch.rows)),
        NativeFn::Integer0(g) => ColumnData::Integer64(run_broadcast_integer(g, batch.rows)),
        NativeFn::Float0(g) => ColumnData::Float64(run_broadcast_float(g, batch.rows)),
        NativeFn::Bool0(g) => ColumnData::Boolean(run_broadcast_boolean(g, batch.rows)),
        NativeFn::FloatPair(g) => ColumnData::Float64(
            run_elementwise_pair(g, &batch.input_a, &batch.input_b, batch.rows),
        ),
    }
}

} // verus!
