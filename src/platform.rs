//! The platform the supervisor runs on, as a snapshot taken at start.
use vstd::prelude::*;

verus! {

/// Which operating system this is. At most one flag is expected to be set.
#[derive(Debug, Clone, Copy, PartialEq, Eq, Structural)]
pub struct Platform {
    pub is_linux: bool,
    pub is_macos: bool,
    pub is_freebsd: bool,
    pub is_openbsd: bool,
    pub is_netbsd: bool,
    pub is_dragonfly: bool,
    pub is_windows: bool,
}

/// What to say before launch about requested resource limits.
#[derive(Debug, Clone, Copy, PartialEq, Eq, Structural)]
pub enum LimitNotice {
    /// Nothing: no limit was requested, or the platform supports them fully.
    Quiet,
    /// The limits are applied, but the platform's support is partial.
    LimitedSupport,
    /// The platform cannot apply limits: they are dropped, with one warning.
    Unavailable,
}

/// The platform's display name: the first flag set, in the order of the fields.
pub open spec fn platform_name(p: Platform) -> Seq<char> {
    if p.is_linux {
        "Linux"@
    } else if p.is_macos {
        "macOS"@
    } else if p.is_freebsd {
        "FreeBSD"@
    } else if p.is_openbsd {
        "OpenBSD"@
    } else if p.is_netbsd {
        "NetBSD"@
    } else if p.is_dragonfly {
        "DragonFly BSD"@
    } else if p.is_windows {
        "Windows"@
    } else {
        "Unknown"@
    }
}

/// The platform can limit a process's CPU time and memory.
pub open spec fn supports_rlimit(p: Platform) -> bool {
    p.is_linux || p.is_freebsd || p.is_dragonfly
}

impl Platform {
    pub fn name(&self) -> (r: &'static str)
        ensures
            r@ == platform_name(*self),
    {
        if self.is_linux {
            "Linux"
        } else if self.is_macos {
            "macOS"
        } else if self.is_freebsd {
            "FreeBSD"
        } else if self.is_openbsd {
            "OpenBSD"
        } else if self.is_netbsd {
            "NetBSD"
        } else if self.is_dragonfly {
            "DragonFly BSD"
        } else if self.is_windows {
            "Windows"
        } else {
            "Unknown"
        }
    }

    /// The platform can ask for a signal when the parent dies.
    pub fn has_prctl(&self) -> (r: bool)
        ensures
            r == self.is_linux,
    {
        self.is_linux
    }

    /// The platform can limit a process's CPU time and memory.
    pub fn has_rlimit(&self) -> (r: bool)
        ensures
            r == supports_rlimit(*self),
    {
        self.is_linux || self.is_freebsd || self.is_dragonfly
    }

    /// What to say, once and before launch, when limits were requested.
    pub fn limit_notice(&self, requested: bool) -> (r: LimitNotice)
        ensures
            r == (if !requested || self.is_linux {
                LimitNotice::Quiet
            } else if supports_rlimit(*self) {
                LimitNotice::LimitedSupport
            } else {
                LimitNotice::Unavailable
            }),
    {
        if !requested || self.is_linux {
            LimitNotice::Quiet
        } else if self.has_rlimit() {
            LimitNotice::LimitedSupport
        } else {
            LimitNotice::Unavailable
        }
    }
}

} // verus!
