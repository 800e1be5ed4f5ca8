//! Cycle-aware tracing for a reference-counted engine.
//!
//! A host engine that reclaims memory by reference counting cannot reclaim
//! cyclic structures on its own; it runs periodic mark passes instead, and
//! during such a pass it must learn, for every composite object, which other
//! managed values that object references.  This crate is the reporting side
//! of that contract: the [`trace::Trace`] capability that composite types
//! implement to report their outgoing references, the pass-scoped
//! [`tracer::Tracer`] visitor through which each reference is reported, and
//! structural implementations that make the capability compose across
//! containers, smart pointers, tuples and primitives.
//!
//! The collector, not this crate, decides when a pass runs, whether to
//! recurse into reported children, and what to free.  Omitting a report never
//! corrupts memory; it only leaves a cycle uncollected.

pub mod handles;
pub mod tracer;
pub mod trace;
pub mod indexed;
pub mod laws;
