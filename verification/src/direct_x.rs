//! The graphics-device collaborator's interface, at its decision boundary.
//!
//! Creating the hardware device that interprets capture surfaces is a
//! one-shot platform call; the pipeline's own part of it is the capability
//! negotiation: the device must come up at the one feature level the capture
//! path requires, and anything lower is rejected rather than limped along
//! with.

use vstd::prelude::*;

verus! {

/// The feature level the capture path requires of the created device.
pub const REQUIRED_FEATURE_LEVEL: u32 = 0xb100;

/// Errors raised while creating the graphics device.
#[derive(Clone, Copy, PartialEq, Eq, Structural, Debug)]
pub enum DirectXError {
    /// The device came up below the required feature level.
    FeatureLevelNotSatisfied,
    /// Any other platform error, carried as the platform's own code.
    WindowsError { code: i32 },
}

/// Accept a freshly created device only at the required feature level.
///
/// The platform reports the level the device actually came up at; any other
/// level, higher or lower in the platform's own encoding, is rejected.
pub fn check_feature_level(feature_level: u32) -> (r: Result<(), DirectXError>)
    ensures
        feature_level == REQUIRED_FEATURE_LEVEL ==> r == Ok::<(), DirectXError>(()),
        feature_level != REQUIRED_FEATURE_LEVEL
            ==> r == Err::<(), DirectXError>(DirectXError::FeatureLevelNotSatisfied),
{
    if feature_level != REQUIRED_FEATURE_LEVEL {
        return Err(DirectXError::FeatureLevelNotSatisfied);
    }
    Ok(())
}

} // verus!
