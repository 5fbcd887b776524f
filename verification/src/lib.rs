//! A pull-based boundary for handing a native value producer to a foreign
//! host runtime.
//!
//! A producer of values (a [`sequence::Sequence`]) is wrapped behind a
//! fixed-layout handle ([`handle::CSharpIteratorOut`]) that owns it on the
//! heap. The host advances the producer one step at a time through a single
//! shared entry point ([`handle::iter_impl_ffi`]), which writes each value
//! into a caller-owned destination slot and reports whether more values are
//! coming. The first step that observes exhaustion releases the producer's
//! allocation; after that the handle is inert and must not be used again.

pub mod generators;
pub mod handle;
pub mod sequence;
