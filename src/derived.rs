//! The derived state of a pricing container.
//!
//! A container starts unset. A pricing event replaces its whole state at once with a
//! snapshot whose terms and price all come from one volatility, so no reader can see a
//! price of one volatility beside the terms of another.

use vstd::prelude::*;

verus! {

/// The standardized distances of the model and the normal values taken at them,
/// all computed from one volatility.
#[derive(Clone, Copy, Debug)]
pub struct Terms<V> {
    pub d1: V,
    pub d2: V,
    /// Cumulative normal at `sign * d1`.
    pub nd1: V,
    /// Cumulative normal at `sign * d2`.
    pub nd2: V,
    /// Normal density at `d1`.
    pub nprimed1: V,
    /// Normal density at `d2`.
    pub nprimed2: V,
}

/// One consistent set of derived quantities.
#[derive(Clone, Copy, Debug)]
pub struct Snapshot<V> {
    pub implied_vol: V,
    pub price: V,
    pub terms: Terms<V>,
}

/// The derived state of a container: unset until the first successful pricing event.
#[derive(Clone, Copy, Debug)]
pub enum DerivedState<V> {
    Unset,
    Populated(Snapshot<V>),
}

} // verus!
