//! Support-code emitter for a cross-language binding generator.
//!
//! A generated binding file may reference a number of built-in interop
//! constructs (owning strings, string views, slices, growable buffers, boxed
//! values, function pointers, error carriers, and so on).  Which constructs
//! are referenced is recorded in a flag registry ([`registry::Builtins`])
//! while the generator walks the user's declarations.  Once walking is
//! complete, a single pass ([`emit::write`]) first resolves the registry —
//! every flag and header dependency that a set flag implies, directly or
//! transitively, becomes set ([`resolve`]) — and then appends the supporting
//! declarations for every required construct, exactly once and in a fixed
//! dependency-safe order, to an append-only text buffer with balanced
//! structural scopes ([`content::Content`]).
//!
//! The catalog of constructs, the dependency edges between them, and the
//! literal text each construct contributes live in [`catalog`].  The laws the
//! pass obeys — idempotent resolution, closure completeness, monotonicity,
//! deterministic emission — are stated and proved in [`laws`].

pub mod block;
pub mod catalog;
pub mod content;
pub mod emit;
pub mod laws;
pub mod registry;
pub mod resolve;
