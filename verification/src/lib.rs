//! A binding-verification layer for GPU render pipelines.
//!
//! A shader stage declares a list of typed, qualified parameters.  Before a
//! pipeline built from such stages may execute, every non-builtin input must
//! have been bound exactly once to a concrete resource of a compatible type,
//! and every output of an upstream stage must be consumed by the downstream
//! stage.  This crate provides the pieces that enforce those rules: the
//! GLSL-like type and qualifier model, the declaration model that derives
//! binding requirements from a parameter list, a bounded name-set algebra that
//! tracks outstanding requirements, the binding-context state machine that
//! gates execution on completeness, the pipe-compatibility check between
//! stages, and the registry that pairs names with typed resource handles.
//!
//! Device and window setup, shader compilation, and the raw byte layout of
//! buffers are deliberately outside this crate; callers hand in plain values
//! and opaque resource handles.

pub mod context;
pub mod declaration;
pub mod errors;
pub mod glsl;
pub mod nameset;
pub mod pipe;
pub mod registry;
