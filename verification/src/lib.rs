//! Loads compiled Source-engine BSP maps and prepares them for
//! line-of-sight queries.
//!
//! The byte-level decoder, the model builder (canonical planes, canonical
//! nodes, per-face polygons), the brush-participation policy and the
//! download-source resolution live here, each with a contract that pins
//! its result.  Single-precision quantities are carried as raw bit
//! patterns; the real-arithmetic ray traversal that consumes the model is
//! left to the surrounding program.

pub mod bsp;
pub mod error;
pub mod native;
pub mod polygon;
pub mod trace;
pub mod workshop;
