//! The modem's signal quality, polled like a sensor.

use vstd::prelude::*;

verus! {

/// How well the modem hears the network.
#[derive(Clone, Copy, Debug, PartialEq, Eq, Structural)]
pub struct SignalQuality {
    pub percent: u32,
}

/// `rand::random::<u32>()`: a number drawn from the thread's generator.
/// Nothing is claimed of it: every `u32` may come back.
#[verifier::external_body]
fn random_u32() -> (drawn: u32) {
    rand::random::<u32>()
}

impl SignalQuality {
    /// The signal quality that the modem manager's property holds.
    ///
    /// The property is a pair of the percentage and a flag that says whether
    /// the value was measured recently. `decoded` is that pair, or `None`
    /// where the property had another shape, which counts as no signal.
    pub fn from_property(decoded: Option<(u32, bool)>) -> (quality: SignalQuality)
        ensures
            quality.percent == match decoded {
                Some(pair) => pair.0,
                None => 0u32,
            },
    {
        match decoded {
            Some(pair) => SignalQuality { percent: pair.0 },
            None => SignalQuality { percent: 0 },
        }
    }

    /// The signal quality of a modem that is not there: a number drawn at
    /// random. Nothing holds of it beyond its type.
    pub fn simulated() -> (quality: SignalQuality) {
        SignalQuality { percent: random_u32() }
    }
}

} // verus!
