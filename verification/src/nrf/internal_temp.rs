//! The internal temperature sensor of the nRF52: its state, and the decisions of its reading
//! and threshold-watching logic.
//!
//! The hardware reads and the watcher thread stay with the caller, which hands the raw readings
//! in; this module decides what they mean.
use vstd::prelude::*;

verus! {

/// Kind of a threshold.
#[derive(Debug, Copy, Clone, PartialEq, Eq, Structural)]
pub enum ThresholdKind {
    /// Lower threshold.
    Lower,
    /// Higher threshold.
    Higher,
}

/// A notification sent to the subscribers of a sensor.
#[derive(Debug, Copy, Clone, PartialEq, Eq, Structural)]
pub enum Notification {
    /// A threshold was crossed.
    Threshold(ThresholdKind),
}

/// A value read from a sensor, to be scaled by the sensor's value scale.
#[derive(Debug, Copy, Clone, PartialEq, Eq, Structural)]
pub struct PhysicalValue {
    /// The scaled value.
    pub value: i32,
}

/// Error returned when reading a sensor fails.
#[derive(Debug, Copy, Clone, PartialEq, Eq, Structural)]
pub enum ReadingError {
    /// The sensor is disabled.
    Disabled,
}

/// Physical unit of a sensor's values.
#[derive(Debug, Copy, Clone, PartialEq, Eq, Structural)]
pub enum PhysicalUnit {
    /// Degrees Celsius.
    Celsius,
}

/// Largest magnitude of a raw reading (in quarters of a degree) that the conversion can hold:
/// the reading is a fixed-point number with two fractional bits, and one hundred times it
/// must still fit in that format.
pub const MAX_RAW_READING: i32 = 21_474_836;

/// State of the internal temperature sensor.
pub struct InternalTemp {
    initialized: bool,
    enabled: bool,
    lower_threshold: i32,
    lower_threshold_enabled: bool,
}

impl InternalTemp {
    /// Whether the sensor has been initialized.
    pub closed spec fn is_initialized(&self) -> bool {
        self.initialized
    }

    /// Whether the sensor is enabled.
    pub closed spec fn is_enabled(&self) -> bool {
        self.enabled
    }

    /// The lower threshold, in hundredths of a degree Celsius.
    pub closed spec fn lower_threshold_spec(&self) -> i32 {
        self.lower_threshold
    }

    /// Whether the lower threshold is watched.
    pub closed spec fn lower_threshold_enabled_spec(&self) -> bool {
        self.lower_threshold_enabled
    }

    /// Returns an uninitialized, disabled sensor, with a lower threshold of 0 that is not
    /// watched.
    pub fn new() -> (r: Self)
        ensures
            !r.is_initialized(),
            !r.is_enabled(),
            r.lower_threshold_spec() == 0,
            !r.lower_threshold_enabled_spec(),
    {
        InternalTemp {
            initialized: false,
            enabled: false,
            lower_threshold: 0,
            lower_threshold_enabled: false,
        }
    }

    /// Initializes the sensor, once: the first call marks it initialized and enabled and
    /// returns `true`, telling the caller to set the hardware and the watcher thread up; later
    /// calls change nothing and return `false`.
    pub fn init(&mut self) -> (first: bool)
        ensures
            first == !old(self).is_initialized(),
            final(self).is_initialized(),
            first ==> final(self).is_enabled(),
            !first ==> final(self).is_enabled() == old(self).is_enabled(),
            final(self).lower_threshold_spec() == old(self).lower_threshold_spec(),
            final(self).lower_threshold_enabled_spec() == old(self).lower_threshold_enabled_spec(),
    {
        if !self.initialized {
            self.initialized = true;
            self.enabled = true;
            true
        } else {
            false
        }
    }

    /// Converts a raw reading of the hardware, in quarters of a degree Celsius, into the value
    /// reported by the sensor, in hundredths of a degree.
    ///
    /// The sensor is read only while it is enabled: a caller checks [`Self::enabled`] before
    /// taking the reading from the hardware, and passes it here.
    ///
    /// # Errors
    ///
    /// Returns [`ReadingError::Disabled`] when the sensor is disabled.
    pub fn read(&self, quarter_degrees: i32) -> (r: Result<PhysicalValue, ReadingError>)
        requires
            -MAX_RAW_READING <= quarter_degrees <= MAX_RAW_READING,
        ensures
            !self.is_enabled() ==> r == Err::<PhysicalValue, ReadingError>(ReadingError::Disabled),
            self.is_enabled() ==> r == Ok::<PhysicalValue, ReadingError>(
                PhysicalValue { value: (25 * quarter_degrees) as i32 },
            ),
    {
        if !self.enabled {
            return Err(ReadingError::Disabled);
        }
        // 100 times a value in quarters of a degree.
        Ok(PhysicalValue { value: 25 * quarter_degrees })
    }

    /// Enables or disables the sensor.
    pub fn set_enabled(&mut self, enabled: bool)
        ensures
            final(self).is_enabled() == enabled,
            final(self).is_initialized() == old(self).is_initialized(),
            final(self).lower_threshold_spec() == old(self).lower_threshold_spec(),
            final(self).lower_threshold_enabled_spec() == old(self).lower_threshold_enabled_spec(),
    {
        self.enabled = enabled;
    }

    /// Returns whether the sensor is enabled.
    pub fn enabled(&self) -> (r: bool)
        ensures
            r == self.is_enabled(),
    {
        self.enabled
    }

    /// Sets a threshold. Only the lower threshold is supported; setting another one changes
    /// nothing.
    pub fn set_threshold(&mut self, kind: ThresholdKind, value: PhysicalValue)
        ensures
            kind == ThresholdKind::Lower ==> final(self).lower_threshold_spec() == value.value,
            kind != ThresholdKind::Lower ==> final(self).lower_threshold_spec()
                == old(self).lower_threshold_spec(),
            final(self).is_initialized() == old(self).is_initialized(),
            final(self).is_enabled() == old(self).is_enabled(),
            final(self).lower_threshold_enabled_spec() == old(self).lower_threshold_enabled_spec(),
    {
        match kind {
            ThresholdKind::Lower => {
                self.lower_threshold = value.value;
            },
            _ => {},
        }
    }

    /// Enables or disables the watching of a threshold. Only the lower threshold is supported;
    /// another one changes nothing.
    pub fn set_threshold_enabled(&mut self, kind: ThresholdKind, enabled: bool)
        ensures
            kind == ThresholdKind::Lower ==> final(self).lower_threshold_enabled_spec() == enabled,
            kind != ThresholdKind::Lower ==> final(self).lower_threshold_enabled_spec()
                == old(self).lower_threshold_enabled_spec(),
            final(self).is_initialized() == old(self).is_initialized(),
            final(self).is_enabled() == old(self).is_enabled(),
            final(self).lower_threshold_spec() == old(self).lower_threshold_spec(),
    {
        match kind {
            ThresholdKind::Lower => {
                self.lower_threshold_enabled = enabled;
            },
            _ => {},
        }
    }

    /// Decides, for one round of the watcher thread, the notification to send after a read
    /// whose outcome is `reading`: a lower-threshold notification when that threshold is
    /// watched, the read succeeded and the value is above the threshold; nothing otherwise.
    pub fn threshold_notification(
        &self,
        reading: Result<PhysicalValue, ReadingError>,
    ) -> (r: Option<Notification>)
        ensures
            r == (if self.lower_threshold_enabled_spec() && reading is Ok && reading->Ok_0.value
                > self.lower_threshold_spec() {
                Some(Notification::Threshold(ThresholdKind::Lower))
            } else {
                None::<Notification>
            }),
    {
        if self.lower_threshold_enabled {
            if let Ok(value) = reading {
                if value.value > self.lower_threshold {
                    return Some(Notification::Threshold(ThresholdKind::Lower));
                }
            }
        }
        None
    }

    /// Power of ten by which values are scaled: values are in hundredths of a degree.
    pub fn value_scale() -> (r: i8)
        ensures
            r == -2,
    {
        -2
    }

    /// The unit of the values.
    pub fn unit() -> (r: PhysicalUnit)
        ensures
            r == PhysicalUnit::Celsius,
    {
        PhysicalUnit::Celsius
    }

    /// Human-readable name of the sensor.
    pub fn display_name() -> (r: Option<&'static str>)
        ensures
            r == Some("Internal temperature sensor"),
    {
        Some("Internal temperature sensor")
    }

    /// Part number of the sensor.
    pub fn part_number() -> (r: &'static str)
        ensures
            r == "nrf52 internal temperature sensor",
    {
        "nrf52 internal temperature sensor"
    }

    /// Version of the driver.
    pub fn version() -> (r: u8)
        ensures
            r == 0,
    {
        0
    }
}

} // verus!
