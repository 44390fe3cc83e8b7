//! The pricing container: fixed contract terms and the derived state they are priced with.

use vstd::prelude::*;

use crate::derived::{DerivedState, Snapshot, Terms};

verus! {

/// The sign of an option class, which unifies the call and put formulas: +1 for a
/// call, -1 for a put.
pub open spec fn sign_value(is_call: bool) -> int {
    if is_call {
        1
    } else {
        -1
    }
}

/// The inputs to the Black-Scholes-Merton model, with the quantities derived from the
/// last successful pricing event.
#[derive(Clone, Copy, Debug)]
pub struct OptionInputs<V> {
    /// The type of the option (call or put).
    pub is_call: bool,
    /// Stock price.
    pub s: V,
    /// Strike price.
    pub k: V,
    /// Risk-free rate.
    pub r: V,
    /// Dividend yield.
    pub q: V,
    /// Time to maturity in years.
    pub t: V,
    /// What the last successful pricing event derived; unset before the first one.
    pub state: DerivedState<V>,
}

impl<V: Copy> OptionInputs<V> {
    /// Whether `o` has the same contract terms as `self`.
    pub open spec fn same_terms(&self, o: &Self) -> bool {
        &&& o.is_call == self.is_call
        &&& o.s == self.s
        &&& o.k == self.k
        &&& o.r == self.r
        &&& o.q == self.q
        &&& o.t == self.t
    }

    /// A container with the given contract terms and nothing derived yet.
    pub fn new(is_call: bool, s: V, k: V, r: V, q: V, t: V) -> (res: Self)
        ensures
            res.is_call == is_call,
            res.s == s,
            res.k == k,
            res.r == r,
            res.q == q,
            res.t == t,
            res.state is Unset,
    {
        OptionInputs { is_call, s, k, r, q, t, state: DerivedState::Unset }
    }

    /// +1 for a call, -1 for a put.
    pub fn sign(&self) -> (res: i8)
        ensures
            res as int == sign_value(self.is_call),
    {
        if self.is_call {
            1
        } else {
            -1
        }
    }

    /// Forward path: prices the option at volatility `vol`.
    ///
    /// `derive` computes the distance and normal terms of a volatility, and `price_of`
    /// the option price of a volatility. Both are asked of `vol`, and whatever was
    /// derived before is replaced as a whole.
    pub fn with_implied_vol<F, G>(self, vol: V, derive: F, price_of: G) -> (res: Self) where
        F: FnOnce(V) -> Terms<V>,
        G: FnOnce(V) -> V,

        requires
            derive.requires((vol,)),
            price_of.requires((vol,)),
        ensures
            self.same_terms(&res),
            exists|t: Terms<V>, p: V|
                derive.ensures((vol,), t) && price_of.ensures((vol,), p) && res.state
                    == DerivedState::<V>::Populated(
                    Snapshot { implied_vol: vol, price: p, terms: t },
                ),
    {
        let terms = derive(vol);
        let price = price_of(vol);
        OptionInputs {
            state: DerivedState::Populated(Snapshot { implied_vol: vol, price, terms }),
            ..self
        }
    }

    /// Reverse path: recovers the state from an observed market price `p`.
    ///
    /// `candidate` is the solver's answer for `p`: a volatility when it found one,
    /// `None` when it failed. On success the container holds that volatility with its
    /// terms and the caller's own price `p`, which is never re-derived. On failure the
    /// container is returned exactly as it was.
    pub fn with_price<F>(self, p: V, candidate: Option<V>, derive: F) -> (res: Self) where
        F: FnOnce(V) -> Terms<V>,

        requires
            forall|v: V| candidate == Some(v) ==> derive.requires((v,)),
        ensures
            candidate is None ==> res == self,
            self.same_terms(&res),
            forall|v: V|
                candidate == Some(v) ==> exists|t: Terms<V>|
                    derive.ensures((v,), t) && res.state == DerivedState::<V>::Populated(
                        Snapshot { implied_vol: v, price: p, terms: t },
                    ),
    {
        match candidate {
            Some(v) => {
                let terms = derive(v);
                OptionInputs {
                    state: DerivedState::Populated(Snapshot { implied_vol: v, price: p, terms }),
                    ..self
                }
            },
            None => self,
        }
    }

    /// The current snapshot, or `None` before the first successful pricing event.
    pub fn snapshot(&self) -> (res: Option<&Snapshot<V>>)
        ensures
            match self.state {
                DerivedState::Unset => res is None,
                DerivedState::Populated(s) => res == Some(&s),
            },
    {
        match &self.state {
            DerivedState::Unset => None,
            DerivedState::Populated(s) => Some(s),
        }
    }

    /// The volatility behind the current state, if any.
    pub fn implied_vol(&self) -> (res: Option<V>)
        ensures
            match self.state {
                DerivedState::Unset => res is None,
                DerivedState::Populated(s) => res == Some(s.implied_vol),
            },
    {
        match &self.state {
            DerivedState::Unset => None,
            DerivedState::Populated(s) => Some(s.implied_vol),
        }
    }

    /// The price behind the current state, if any.
    pub fn price(&self) -> (res: Option<V>)
        ensures
            match self.state {
                DerivedState::Unset => res is None,
                DerivedState::Populated(s) => res == Some(s.price),
            },
    {
        match &self.state {
            DerivedState::Unset => None,
            DerivedState::Populated(s) => Some(s.price),
        }
    }
}

} // verus!
