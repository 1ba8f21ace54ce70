//! Plain platform values: OS version, capabilities derived from it, and
//! small host enumerations.
use vstd::prelude::*;

verus! {

/// The version triple reported by the host's process information.
#[derive(Clone, Copy, Debug, PartialEq, Eq, Structural)]
pub struct NSOperatingSystemVersion {
    pub major: i64,
    pub minor: i64,
    pub patch: i64,
}

/// Oldest major OS version the library supports.
pub const MIN_SUPPORTED_MAJOR: i64 = 8;

/// First major OS version with the safe-area inset API.
pub const SAFE_AREA_MAJOR: i64 = 11;

/// Features of the host that are fixed for the life of the process.
#[derive(Clone, Copy, Debug, PartialEq, Eq, Structural)]
pub struct Capabilities {
    /// Whether the notch-aware safe-area layout API is available.
    pub supports_safe_area: bool,
}

impl Capabilities {
    /// Derives the capabilities from a supported OS version.
    pub fn from_version(os_version: NSOperatingSystemVersion) -> (r: Capabilities)
        requires
            os_version.major >= MIN_SUPPORTED_MAJOR,
        ensures
            r.supports_safe_area == (os_version.major >= SAFE_AREA_MAJOR),
    {
        Capabilities { supports_safe_area: os_version.major >= SAFE_AREA_MAJOR }
    }
}

/// The OS version as the rest of the library reads it.
#[derive(Clone, Copy, Debug, PartialEq, Eq, Structural)]
pub struct OSVersion {
    pub major: u32,
    pub minor: u32,
}

impl OSVersion {
    /// The major and minor parts of a supported OS version.
    pub fn from_version(os_version: NSOperatingSystemVersion) -> (r: OSVersion)
        requires
            MIN_SUPPORTED_MAJOR <= os_version.major <= u32::MAX,
            0 <= os_version.minor <= u32::MAX,
        ensures
            r.major == os_version.major,
            r.minor == os_version.minor,
    {
        OSVersion { major: os_version.major as u32, minor: os_version.minor as u32 }
    }
}

/// The orientations supported on iOS.
#[derive(Clone, Copy, Debug, PartialEq, Eq, Structural)]
pub enum SupportedOrientations {
    /// Excludes `PortraitUpsideDown` on phones.
    LandscapeAndPortrait,
    Landscape,
    /// Excludes `PortraitUpsideDown` on phones.
    Portrait,
}

/// The interface idiom the host reports for phones.
pub const IDIOM_PHONE: i64 = 0;

/// Orientation mask bit for portrait.
pub const ORIENTATION_PORTRAIT: u64 = 2;

/// Orientation mask bit for upside-down portrait.
pub const ORIENTATION_PORTRAIT_UPSIDE_DOWN: u64 = 4;

/// Orientation mask bits for both landscape orientations.
pub const ORIENTATION_LANDSCAPE: u64 = 24;

/// The orientation mask a view controller reports for `orientations` on a
/// device of interface idiom `idiom`.
pub open spec fn orientation_mask_of(orientations: SupportedOrientations, idiom: i64) -> u64 {
    match orientations {
        SupportedOrientations::LandscapeAndPortrait => if idiom == IDIOM_PHONE {
            26
        } else {
            30
        },
        SupportedOrientations::Landscape => 24,
        SupportedOrientations::Portrait => if idiom == IDIOM_PHONE {
            2
        } else {
            6
        },
    }
}

/// The orientation mask for `orientations`: upside-down portrait is added
/// to the portrait orientations on every device but a phone.
pub fn supported_orientation_mask(orientations: SupportedOrientations, idiom: i64) -> (r: u64)
    ensures
        r == orientation_mask_of(orientations, idiom),
{
    assert(ORIENTATION_LANDSCAPE | ORIENTATION_PORTRAIT == 26u64) by (bit_vector);
    assert(26u64 | ORIENTATION_PORTRAIT_UPSIDE_DOWN == 30u64) by (bit_vector);
    assert(ORIENTATION_PORTRAIT | ORIENTATION_PORTRAIT_UPSIDE_DOWN == 6u64) by (bit_vector);
    match orientations {
        SupportedOrientations::LandscapeAndPortrait => {
            let base = ORIENTATION_LANDSCAPE | ORIENTATION_PORTRAIT;
            if idiom != IDIOM_PHONE {
                base | ORIENTATION_PORTRAIT_UPSIDE_DOWN
            } else {
                base
            }
        },
        SupportedOrientations::Landscape => ORIENTATION_LANDSCAPE,
        SupportedOrientations::Portrait => {
            let base = ORIENTATION_PORTRAIT;
            if idiom != IDIOM_PHONE {
                base | ORIENTATION_PORTRAIT_UPSIDE_DOWN
            } else {
                base
            }
        },
    }
}

/// The phase of a touch as the host reports it.
#[derive(Clone, Copy, Debug, PartialEq, Eq, Structural)]
pub enum UITouchPhase {
    Began,
    Moved,
    Stationary,
    Ended,
    Cancelled,
}

/// The phase of a touch as the portable API reports it.
#[derive(Clone, Copy, Debug, PartialEq, Eq, Structural)]
pub enum TouchPhase {
    Started,
    Moved,
    Ended,
    Cancelled,
}

/// The portable phase of a touch; a stationary touch is never reported.
pub fn touch_phase(phase: UITouchPhase) -> (r: TouchPhase)
    requires
        phase != UITouchPhase::Stationary,
    ensures
        phase == UITouchPhase::Began ==> r == TouchPhase::Started,
        phase == UITouchPhase::Moved ==> r == TouchPhase::Moved,
        phase == UITouchPhase::Ended ==> r == TouchPhase::Ended,
        phase == UITouchPhase::Cancelled ==> r == TouchPhase::Cancelled,
{
    match phase {
        UITouchPhase::Began => TouchPhase::Started,
        UITouchPhase::Moved => TouchPhase::Moved,
        UITouchPhase::Ended => TouchPhase::Ended,
        _ => TouchPhase::Cancelled,
    }
}

} // verus!
