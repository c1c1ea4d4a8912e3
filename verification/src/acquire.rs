//! Obtaining a GPU device: what is asked of the platform, and what each
//! answer leads to.

use crate::error::GpuError;
use vstd::prelude::*;

verus! {

/// Which kind of adapter to prefer where several are present.
#[derive(Clone, Copy, Debug, PartialEq, Eq)]
pub enum PowerPreference {
    /// No preference between integrated and discrete adapters.
    NoPreference,
    LowPower,
    HighPerformance,
}

/// The adapter to look for.
#[derive(Clone, Copy, Debug, PartialEq, Eq)]
pub struct AdapterRequest {
    pub power_preference: PowerPreference,
    pub force_fallback_adapter: bool,
}

/// A named set of device limits.
#[derive(Clone, Copy, Debug, PartialEq, Eq)]
pub enum LimitsPreset {
    /// What every desktop-class device supports.
    Default,
    /// The conservative set that weak and mobile hardware also supports.
    DownlevelDefaults,
    /// The set that a WebGL2 backend supports.
    DownlevelWebGl2Defaults,
}

/// The logical device to ask of an adapter.
#[derive(Clone, Copy, Debug, PartialEq, Eq)]
pub struct DeviceRequest {
    /// The optional features to enable, one bit each; zero enables none.
    pub feature_bits: u64,
    pub limits: LimitsPreset,
}

/// The adapter request of this library: the platform's default selection.
pub open spec fn adapter_request_spec() -> AdapterRequest {
    AdapterRequest { power_preference: PowerPreference::NoPreference, force_fallback_adapter: false }
}

/// The device request of this library: no optional feature, and limits low
/// enough for weak hardware.
pub open spec fn device_request_spec() -> DeviceRequest {
    DeviceRequest { feature_bits: 0, limits: LimitsPreset::DownlevelDefaults }
}

/// What follows the answer to the adapter request.
pub open spec fn adapter_answered_spec(found: bool) -> Result<DeviceRequest, GpuError> {
    if found {
        Ok(device_request_spec())
    } else {
        Err(GpuError::NoAdapter)
    }
}

/// The adapter to look for.
pub fn adapter_request() -> (request: AdapterRequest)
    ensures
        request == adapter_request_spec(),
{
    AdapterRequest { power_preference: PowerPreference::NoPreference, force_fallback_adapter: false }
}

/// Decides what follows the answer to the adapter request: with an adapter,
/// the device to ask of it; without one, failure.
pub fn adapter_answered(found: bool) -> (next: Result<DeviceRequest, GpuError>)
    ensures
        next == adapter_answered_spec(found),
{
    if found {
        Ok(DeviceRequest { feature_bits: 0, limits: LimitsPreset::DownlevelDefaults })
    } else {
        Err(GpuError::NoAdapter)
    }
}

/// Decides what follows the answer to the device request: a refusal fails the
/// run and keeps the refusal's text.
pub fn device_answered(outcome: Result<(), String>) -> (next: Result<(), GpuError>)
    ensures
        match outcome {
            Ok(_) => next is Ok,
            Err(reason) => next matches Err(GpuError::DeviceRequestFailed(text)) && text@
                == reason@,
        },
{
    match outcome {
        Ok(_) => Ok(()),
        Err(reason) => Err(GpuError::DeviceRequestFailed(reason)),
    }
}

} // verus!
