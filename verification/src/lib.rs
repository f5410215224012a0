//! Fermata: an S-expression notation for music scores.
//!
//! The library reads and writes S-expressions (`sexpr`), models the parts of
//! the score representation that the S-expression conversions work on (`ir`),
//! holds a fixed-point stand-in for floating-point quantities (`decimal`),
//! and keeps the reference tables that `fermata show` prints (`reference`).

pub mod decimal;
pub mod text;
pub mod sexpr;
pub mod ir;
pub mod reference;
