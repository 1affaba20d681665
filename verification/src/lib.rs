//! Term language and per-class metadata analysis for a tensor-graph
//! optimizer built on equality saturation.
//!
//! The crate defines the closed grammar of tensor operator nodes ([`lang`]),
//! the per-equivalence-class metadata record ([`metadata`]), the parser for
//! `name@dim1_dim2_...` tensor names ([`name`]), a model of the backend
//! graph that performs shape inference and op construction ([`graph`]), and
//! the analysis itself ([`analysis`]), which maps each newly inserted node
//! to the metadata record of its class.

pub mod analysis;
pub mod graph;
pub mod lang;
pub mod metadata;
pub mod name;
