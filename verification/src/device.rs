//! Device selection and device-capability introspection.
//!
//! Selection is an explicit value: the caller enumerates platforms and the
//! chosen platform's devices, hands the counts to `select_device`, and keeps
//! the returned selection for later context creation.  Invalid indices and
//! enumeration failures never raise a hard error: they leave the prior
//! selection in place, degrading to "use default".

use crate::text::{contains_sub, str_contains};
use vstd::prelude::*;

verus! {

/// A chosen compute platform and one of its devices, by index into the
/// enumeration order.
#[derive(Clone, Copy, PartialEq, Eq, Structural, Debug)]
pub struct DeviceSelection {
    pub platform: usize,
    pub device: usize,
}

/// What a selection attempt found.
#[derive(Clone, Copy, PartialEq, Eq, Structural, Debug)]
pub enum SelectionOutcome {
    /// The indices were in range; the selection was replaced.
    Selected,
    /// No compute platform is available at all.
    NoPlatforms,
    /// The platform index is not below the platform count.
    PlatformOutOfRange,
    /// The chosen platform's devices could not be enumerated.
    DevicesUnavailable,
    /// The device index is not below the chosen platform's device count.
    DeviceOutOfRange,
}

/// The selection that holds after an attempt: the requested pair when both
/// indices are in range, the prior selection otherwise.
pub open spec fn selection_after(
    prior: Option<DeviceSelection>,
    platform_count: usize,
    device_count: Option<usize>,
    platform_idx: usize,
    device_idx: usize,
) -> Option<DeviceSelection> {
    if platform_count == 0 || platform_idx >= platform_count {
        prior
    } else {
        match device_count {
            None => prior,
            Some(c) => if device_idx >= c {
                prior
            } else {
                Some(DeviceSelection { platform: platform_idx, device: device_idx })
            },
        }
    }
}

/// Attempts to select a device.  `platform_count` is the number of
/// enumerated platforms; `device_count` is the number of devices of the
/// requested platform, or `None` when they could not be enumerated.  Returns
/// the selection that now holds and what happened; failure never discards
/// the prior selection.
pub fn select_device(
    prior: Option<DeviceSelection>,
    platform_count: usize,
    device_count: Option<usize>,
    platform_idx: usize,
    device_idx: usize,
) -> (r: (Option<DeviceSelection>, SelectionOutcome))
    ensures
        r.0 == selection_after(prior, platform_count, device_count, platform_idx, device_idx),
        r.1 == SelectionOutcome::Selected <==> (platform_idx < platform_count && (device_count
            matches Some(c) && device_idx < c)),
        r.1 == SelectionOutcome::NoPlatforms <==> platform_count == 0,
        r.1 == SelectionOutcome::PlatformOutOfRange <==> (0 < platform_count <= platform_idx),
        r.1 == SelectionOutcome::DevicesUnavailable <==> (platform_idx < platform_count
            && device_count is None),
        r.1 == SelectionOutcome::DeviceOutOfRange <==> (platform_idx < platform_count
            && (device_count matches Some(c) && c <= device_idx)),
{
    if platform_count == 0 {
        return (prior, SelectionOutcome::NoPlatforms);
    }
    if platform_idx >= platform_count {
        return (prior, SelectionOutcome::PlatformOutOfRange);
    }
    match device_count {
        None => (prior, SelectionOutcome::DevicesUnavailable),
        Some(c) => {
            if device_idx >= c {
                (prior, SelectionOutcome::DeviceOutOfRange)
            } else {
                (
                    Some(DeviceSelection { platform: platform_idx, device: device_idx }),
                    SelectionOutcome::Selected,
                )
            }
        },
    }
}

/// A selection attempt with an out-of-range platform index, an out-of-range
/// device index, or no device enumeration leaves the prior selection
/// unchanged.
pub proof fn lemma_invalid_selection_keeps_prior(
    prior: Option<DeviceSelection>,
    platform_count: usize,
    device_count: Option<usize>,
    platform_idx: usize,
    device_idx: usize,
)
    requires
        platform_idx >= platform_count || device_count is None || device_idx
            >= device_count.unwrap(),
    ensures
        selection_after(prior, platform_count, device_count, platform_idx, device_idx) == prior,
{
}

/// The extension marker by which a device advertises double-precision
/// support.
pub open spec fn doubles_marker() -> Seq<char> {
    "cl_khr_fp64"@
}

/// Whether a device's extensions string advertises double-precision (f64)
/// arithmetic.
pub fn extensions_support_doubles(extensions: &str) -> (r: bool)
    ensures
        r == contains_sub(extensions@, doubles_marker()),
{
    str_contains(extensions, "cl_khr_fp64")
}

} // verus!
