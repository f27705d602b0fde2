//! The arithmetic core of a four-function desk calculator.
//!
//! The core accumulates typed digits, remembers one pending binary operator and
//! decides what is to be computed; numbers are carried as IEEE 754 binary64 bit
//! patterns, and the floating-point work itself (reading decimal text, the four
//! operations, writing decimal text) is left to the program that hosts the core.

pub mod binary64;
pub mod laws;
pub mod operation;
pub mod state;
pub mod text;
