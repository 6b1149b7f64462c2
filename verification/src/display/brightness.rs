//! The backlight that percentage-based brightness control drives: the first
//! discovered device is the primary one. (The percentage <-> raw conversion
//! is floating-point arithmetic and is done by the daemon.)

use super::backlight::{device_of, max_failure, max_value, BacklightDevice, BacklightEntry};
use crate::errors::PowerError;
use vstd::prelude::*;

verus! {

pub struct BrightnessController {
    device: Option<BacklightDevice>,
}

impl View for BrightnessController {
    type V = Option<BacklightDevice>;

    closed spec fn view(&self) -> Option<BacklightDevice> {
        self.device
    }
}

impl BrightnessController {
    /// The controller of the first backlight among `entries`, or of none
    /// when there is no entry; fails as `BacklightDevice::discover` does.
    pub fn new(entries: Vec<BacklightEntry>) -> (r: Result<Self, PowerError>)
        ensures
            (forall|i: int| 0 <= i < entries@.len() ==> (#[trigger] max_value(entries@[i])) is Some)
                ==> r is Ok,
            (exists|i: int| 0 <= i < entries@.len() && (#[trigger] max_value(entries@[i])) is None)
                ==> r is Err,
            r matches Err(err) ==> exists|k: int|
                0 <= k < entries@.len() && max_failure(entries@[k], err) && forall|j: int|
                    0 <= j < k ==> (#[trigger] max_value(entries@[j])) is Some,
            r matches Ok(c) ==> (if entries@.len() == 0 {
                c@ is None
            } else {
                c@ matches Some(d) && device_of(d, entries@[0])
            }),
    {
        let mut devices = BacklightDevice::discover(entries)?;
        if devices.len() == 0 {
            Ok(BrightnessController { device: None })
        } else {
            let first = devices.remove(0);
            Ok(BrightnessController { device: Some(first) })
        }
    }

    pub fn is_supported(&self) -> (r: bool)
        ensures
            r == self@ is Some,
    {
        self.device.is_some()
    }

    /// The primary backlight, if there is one.
    pub fn device(&self) -> (r: Option<&BacklightDevice>)
        ensures
            match self@ {
                Some(d) => r == Some(&d),
                None => r is None,
            },
    {
        match &self.device {
            Some(d) => Some(d),
            None => None,
        }
    }
}

} // verus!
