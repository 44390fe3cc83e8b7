//! European option pricing under the Black-Scholes-Merton model.
//!
//! The verified core holds the option-class sign convention and the lifecycle of the
//! derived-quantity cache: a container is either unset or holds one consistent snapshot
//! (implied volatility, price, and the distance and normal terms derived from that
//! volatility). The numeric work is supplied by the caller as closures, so the rules
//! proved here hold for any value type.

pub mod derived;
pub mod inputs;

pub use derived::{DerivedState, Snapshot, Terms};
pub use inputs::OptionInputs;
pub use inputs::sign_value;
