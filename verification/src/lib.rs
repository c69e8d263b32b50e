//! Input validation and small utilities around a Black-Scholes pricing engine.
//!
//! The engine prices European options from five market inputs. Everything
//! here works on exact values: the inputs of a pricing request are handled
//! by their IEEE-754 binary64 bit patterns, so that the rules that accept or
//! reject a request are stated and proved over integers.

pub mod double;
pub mod error;
pub mod option;
pub mod request;
pub mod sum;
pub mod validate;
