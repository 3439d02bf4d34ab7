use vstd::prelude::*;

verus! {

/// A graphics runtime version, ordered numerically by major, minor, patch.
#[derive(Clone, Copy, Debug, PartialEq, Eq, Structural)]
pub struct Version {
    pub major: u32,
    pub minor: u32,
    pub patch: u32,
}

impl Version {
    /// Lexicographic `self >= other` on (major, minor, patch).
    pub open spec fn spec_ge(self, other: Version) -> bool {
        ||| self.major > other.major
        ||| (self.major == other.major && self.minor > other.minor)
        ||| (self.major == other.major && self.minor == other.minor && self.patch >= other.patch)
    }

    pub fn new(major: u32, minor: u32, patch: u32) -> (v: Version)
        ensures
            v == (Version { major, minor, patch }),
    {
        Version { major, minor, patch }
    }

    /// Direct numeric major.minor.patch comparison: `self >= other`.
    pub fn at_least(&self, other: &Version) -> (r: bool)
        ensures
            r == self.spec_ge(*other),
    {
        if self.major != other.major {
            self.major > other.major
        } else if self.minor != other.minor {
            self.minor > other.minor
        } else {
            self.patch >= other.patch
        }
    }
}

/// The runtime version from which portability extensions are mandatory on macOS.
pub open spec fn spec_portability_macos_version() -> Version {
    Version { major: 1, minor: 3, patch: 216 }
}

pub fn portability_macos_version() -> (v: Version)
    ensures
        v == spec_portability_macos_version(),
{
    Version { major: 1, minor: 3, patch: 216 }
}

} // verus!
