//! The ways in which a run on the GPU fails.

use vstd::prelude::*;
use vstd::string::StringExecFns;

verus! {

/// Why a run on the GPU did not deliver pixels.
#[derive(Debug, PartialEq, Eq)]
pub enum GpuError {
    /// No adapter answered the request.
    NoAdapter,
    /// The adapter refused the device that was asked of it; the text is the
    /// refusal as the GPU layer worded it.
    DeviceRequestFailed(String),
    /// The readback buffer could not be mapped for reading.
    ReadbackFailed,
}

impl GpuError {
    /// The diagnostic line of this error.
    pub open spec fn message_spec(self) -> Seq<char> {
        match self {
            GpuError::NoAdapter => "No adapters are found that suffice all the 'hard' options."@,
            GpuError::DeviceRequestFailed(reason) => "Request device failed: "@ + reason@,
            GpuError::ReadbackFailed => "Couldn't run compute on the GPU."@,
        }
    }

    /// The diagnostic line of this error.
    pub fn message(&self) -> (text: String)
        ensures
            text@ == self.message_spec(),
    {
        match self {
            GpuError::NoAdapter => String::from_str(
                "No adapters are found that suffice all the 'hard' options.",
            ),
            GpuError::DeviceRequestFailed(reason) => String::from_str(
                "Request device failed: ",
            ).concat(reason.as_str()),
            GpuError::ReadbackFailed => String::from_str("Couldn't run compute on the GPU."),
        }
    }
}

} // verus!
