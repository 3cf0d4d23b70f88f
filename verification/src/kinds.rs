//! The closed set of logical value kinds the adapter supports, and the
//! buffer discipline the engine expects for each of them.

use vstd::prelude::*;

verus! {

/// A value's engine-visible type classification.
///
/// `Float64` cells are carried as the raw bit pattern of an IEEE 754
/// double (a `u64`); the engine and the native generators interpret the
/// bits, this library only moves them.
#[derive(Clone, Copy, PartialEq, Eq, Structural, Debug)]
pub enum LogicalKind {
    Text,
    Integer64,
    Float64,
    Boolean,
}

impl LogicalKind {
    /// Whether cells of this kind occupy a fixed number of bytes in the
    /// engine's column buffers. `Text` is variable-width: each row is
    /// assigned independently with an explicit length.
    pub open spec fn spec_is_fixed_width(self) -> bool {
        !(self is Text)
    }

    /// Bytes per cell in a fixed-width column buffer, `None` for `Text`.
    pub open spec fn spec_fixed_width(self) -> Option<u8> {
        match self {
            LogicalKind::Text => None,
            LogicalKind::Integer64 => Some(8),
            LogicalKind::Float64 => Some(8),
            LogicalKind::Boolean => Some(1),
        }
    }

    /// Buffer access discipline for this kind: `Some(w)` means a
    /// contiguous array of `w`-byte cells written as `buffer[i] = value`,
    /// `None` means per-row length-bounded string assignment.
    pub fn fixed_width(self) -> (r: Option<u8>)
        ensures
            r == self.spec_fixed_width(),
    {
        match self {
            LogicalKind::Text => None,
            LogicalKind::Integer64 => Some(8),
            LogicalKind::Float64 => Some(8),
            LogicalKind::Boolean => Some(1),
        }
    }

    /// The numeric identifier under which the host engine's C interface
    /// knows this kind (its `duckdb_type` value).
    pub open spec fn spec_engine_type_id(self) -> u8 {
        match self {
            LogicalKind::Text => 17,
            LogicalKind::Integer64 => 5,
            LogicalKind::Float64 => 11,
            LogicalKind::Boolean => 1,
        }
    }

    /// The engine's external type identifier for this kind.
    pub fn engine_type_id(self) -> (r: u8)
        ensures
            r == self.spec_engine_type_id(),
    {
        match self {
            LogicalKind::Text => 17,
            LogicalKind::Integer64 => 5,
            LogicalKind::Float64 => 11,
            LogicalKind::Boolean => 1,
        }
    }
}

/// An ordered list of parameter kinds plus one return kind.
///
/// The adapter only ever registers two shapes: no parameters at all, or
/// exactly two `Float64` parameters returning `Float64`.
pub struct FunctionSignature {
    pub params: Vec<LogicalKind>,
    pub ret: LogicalKind,
}

impl FunctionSignature {
    /// The two admissible shapes of a signature.
    pub open spec fn wf(self) -> bool {
        ||| self.params@ =~= Seq::<LogicalKind>::empty()
        ||| (self.params@ =~= seq![LogicalKind::Float64, LogicalKind::Float64]
            && self.ret == LogicalKind::Float64)
    }
}

} // verus!
