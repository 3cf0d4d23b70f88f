//! Adapter layer that exposes a catalog of zero- and two-argument
//! value-generating functions as scalar functions of a columnar query
//! engine.
//!
//! The engine calls a registered function once per batch of rows; the
//! library describes each function's signature to the engine, carries the
//! native callable across the registration boundary as an opaque payload,
//! and fills the batch's output column on every invocation.

use vstd::prelude::*;

mod builder;
mod catalog;
mod fakes;
mod float_bits;
mod generators;
mod kinds;
mod payload;
mod registry;
mod trampoline;

pub use builder::registered_as;
pub use builder::register_scalar;
pub use catalog::catalog;
pub use catalog::catalog_fresh_at;
pub use catalog::catalog_spec;
pub use catalog::fresh_at;
pub use catalog::lemma_catalog_names_distinct;
pub use catalog::lemma_register_all_owed_success;
pub use catalog::register_all;
pub use catalog::register_entries;
pub use catalog::CatalogEntry;
pub use float_bits::spec_widen_f32_bits;
pub use float_bits::widen_f32_bits;
pub use generators::BoolGen;
pub use generators::FloatGen;
pub use generators::IntGen;
pub use generators::PairGen;
pub use generators::TextGen;
pub use kinds::FunctionSignature;
pub use kinds::LogicalKind;
pub use payload::lemma_payload_round_trip;
pub use payload::NativeFn;
pub use payload::PayloadHandle;
pub use registry::EngineRegistry;
pub use registry::FunctionDescriptor;
pub use registry::RegisteredFunction;
pub use registry::RegistrationError;
pub use trampoline::batch_post;
pub use trampoline::run_broadcast_boolean;
pub use trampoline::run_broadcast_float;
pub use trampoline::run_broadcast_integer;
pub use trampoline::run_broadcast_text;
pub use trampoline::run_elementwise_pair;
pub use trampoline::run_trampoline;
pub use trampoline::Batch;
pub use trampoline::ColumnData;
pub use trampoline::TrampolineKind;
