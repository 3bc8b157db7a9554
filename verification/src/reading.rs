//! What the sensors produce.

use crate::telemetry::Source;
use vstd::prelude::*;

verus! {

/// The kinds of reading. The store has one append operation for each.
#[derive(Clone, Copy, Debug, PartialEq, Eq, Structural)]
pub enum ReadingKind {
    GpsFix,
    GpsVelocity,
    ImuSample,
    AnalogSample,
    MagSample,
}

/// One sample of one sensor. `F` is the scalar that measurements are
/// expressed in. A reading is made once and never changed.
#[derive(Clone, Copy, Debug, PartialEq)]
pub enum Reading<F> {
    /// A position fix.
    GpsFix { lat: F, lon: F, quality: u8, satellites: u8 },
    /// Course and speed over ground.
    GpsVelocity { course: F, speed: F },
    /// Orientation angles and the chip's temperature.
    ImuSample { roll: F, pitch: F, yaw: F, temperature: F },
    /// The battery voltage.
    AnalogSample { battery_voltage: F },
    /// The heading and the raw field vector that it was computed from.
    MagSample { heading: F, raw_x: F, raw_y: F, raw_z: F },
}

/// The source that produces readings of `kind`.
pub open spec fn source_of(kind: ReadingKind) -> Source {
    match kind {
        ReadingKind::GpsFix => Source::Gps,
        ReadingKind::GpsVelocity => Source::Gps,
        ReadingKind::ImuSample => Source::Imu,
        ReadingKind::AnalogSample => Source::Analog,
        ReadingKind::MagSample => Source::Magnetometer,
    }
}

impl ReadingKind {
    /// The source that produces readings of this kind.
    pub fn source(self) -> (source: Source)
        ensures
            source == source_of(self),
    {
        match self {
            ReadingKind::GpsFix => Source::Gps,
            ReadingKind::GpsVelocity => Source::Gps,
            ReadingKind::ImuSample => Source::Imu,
            ReadingKind::AnalogSample => Source::Analog,
            ReadingKind::MagSample => Source::Magnetometer,
        }
    }
}

impl<F> Reading<F> {
    /// The kind of this reading, which is its variant.
    pub open spec fn spec_kind(&self) -> ReadingKind {
        match self {
            Reading::GpsFix { .. } => ReadingKind::GpsFix,
            Reading::GpsVelocity { .. } => ReadingKind::GpsVelocity,
            Reading::ImuSample { .. } => ReadingKind::ImuSample,
            Reading::AnalogSample { .. } => ReadingKind::AnalogSample,
            Reading::MagSample { .. } => ReadingKind::MagSample,
        }
    }

    /// The kind of this reading, by which the store's append operation is chosen.
    #[verifier::when_used_as_spec(spec_kind)]
    pub fn kind(&self) -> (kind: ReadingKind)
        ensures
            kind == self.spec_kind(),
    {
        match self {
            Reading::GpsFix { .. } => ReadingKind::GpsFix,
            Reading::GpsVelocity { .. } => ReadingKind::GpsVelocity,
            Reading::ImuSample { .. } => ReadingKind::ImuSample,
            Reading::AnalogSample { .. } => ReadingKind::AnalogSample,
            Reading::MagSample { .. } => ReadingKind::MagSample,
        }
    }
}

} // verus!
