//! Operating system versions and the availability of native APIs.
use core::cmp::Ordering;
use vstd::prelude::*;

verus! {

/// The operating systems of the Apple family.
#[derive(Copy, Clone, Debug, PartialEq, Eq, Structural)]
pub enum AppleOS {
    MacOS,
    MacCatalyst,
    TvOS,
    WatchOS,
    VisionOS,
    IOS,
    /// A host outside the Apple family.
    Unknown,
}

/// An operating system with its major and minor version.
#[derive(Copy, Clone, Debug)]
pub struct AppleVersion(pub AppleOS, pub u16, pub u16);

/// How `v` orders against the version `(os, major, minor)`: versions of two
/// different systems are not comparable, versions of one system compare by
/// major, then by minor number.
pub open spec fn version_cmp(v: AppleVersion, other: (AppleOS, u16, u16)) -> Option<Ordering> {
    if v.0 != other.0 {
        None
    } else if v.1 == other.1 && v.2 == other.2 {
        Some(Ordering::Equal)
    } else if v.1 > other.1 || (v.1 == other.1 && v.2 > other.2) {
        Some(Ordering::Greater)
    } else {
        Some(Ordering::Less)
    }
}

/// `v` runs `os` at version `major.minor` or later.
pub open spec fn at_least(v: AppleVersion, os: AppleOS, major: u16, minor: u16) -> bool {
    v.0 == os && (v.1 > major || (v.1 == major && v.2 >= minor))
}

/// `v` runs `os` at a version from `lo` to `hi`, both included.
pub open spec fn within(
    v: AppleVersion,
    os: AppleOS,
    lo: (u16, u16),
    hi: (u16, u16),
) -> bool {
    at_least(v, os, lo.0, lo.1) && v.0 == os && (v.1 < hi.0 || (v.1 == hi.0 && v.2 <= hi.1))
}

impl PartialEq<AppleOS> for AppleVersion {
    fn eq(&self, other: &AppleOS) -> (r: bool) {
        self.0 == *other
    }
}

impl vstd::std_specs::cmp::PartialEqSpecImpl<AppleOS> for AppleVersion {
    open spec fn obeys_eq_spec() -> bool {
        true
    }

    open spec fn eq_spec(&self, other: &AppleOS) -> bool {
        self.0 == *other
    }
}

impl PartialEq<(AppleOS, u16, u16)> for AppleVersion {
    fn eq(&self, other: &(AppleOS, u16, u16)) -> (r: bool) {
        self.0 == other.0 && self.1 == other.1 && self.2 == other.2
    }
}

impl vstd::std_specs::cmp::PartialEqSpecImpl<(AppleOS, u16, u16)> for AppleVersion {
    open spec fn obeys_eq_spec() -> bool {
        true
    }

    open spec fn eq_spec(&self, other: &(AppleOS, u16, u16)) -> bool {
        self.0 == other.0 && self.1 == other.1 && self.2 == other.2
    }
}

impl PartialOrd<(AppleOS, u16, u16)> for AppleVersion {
    fn partial_cmp(&self, other: &(AppleOS, u16, u16)) -> (r: Option<Ordering>) {
        if self.0 != other.0 {
            return None;
        }
        if self.1 == other.1 && self.2 == other.2 {
            Some(Ordering::Equal)
        } else if self.1 > other.1 || (self.1 == other.1 && self.2 > other.2) {
            Some(Ordering::Greater)
        } else {
            Some(Ordering::Less)
        }
    }
}

impl vstd::std_specs::cmp::PartialOrdSpecImpl<(AppleOS, u16, u16)> for AppleVersion {
    open spec fn obeys_partial_cmp_spec() -> bool {
        true
    }

    open spec fn partial_cmp_spec(&self, other: &(AppleOS, u16, u16)) -> Option<Ordering> {
        version_cmp(*self, *other)
    }
}

/// The native APIs whose availability depends on the OS version.
#[derive(Copy, Clone, Debug, PartialEq, Eq, Structural)]
pub enum ApiFeature {
    /// Asking the user for permission to notify.
    Authorization,
    /// Setting the badge count of the app icon.
    BadgeCount,
    /// Adding a notification request.
    AddNotification,
    /// The target content identifier of a notification.
    TargetContentIdentifier,
    /// The summary argument and its count of a notification.
    SummaryArgument,
    /// The interruption level and relevance score of a notification.
    InterruptionLevel,
    /// The focus filter criteria of a notification.
    FilterCriteria,
    /// The default critical alert sound, with or without a volume.
    DefaultCriticalSound,
    /// A named critical alert sound, with or without a volume.
    NamedCriticalSound,
    /// Ringtone sounds.
    Ringtone,
    /// Icons on notification actions.
    ActionIcon,
    /// The time at which a video attachment's thumbnail is taken.
    ThumbnailTime,
}

/// Whether the native API behind `f` can be called on `v`.
pub open spec fn feature_available(v: AppleVersion, f: ApiFeature) -> bool {
    match f {
        ApiFeature::Authorization => at_least(v, AppleOS::IOS, 10, 0) || at_least(v, AppleOS::MacOS, 10, 14)
            || at_least(v, AppleOS::MacCatalyst, 13, 1) || at_least(v, AppleOS::TvOS, 10, 0)
            || at_least(v, AppleOS::VisionOS, 1, 0) || at_least(v, AppleOS::WatchOS, 3, 0),
        ApiFeature::BadgeCount => at_least(v, AppleOS::IOS, 16, 0) || at_least(v, AppleOS::MacOS, 13, 0)
            || at_least(v, AppleOS::MacCatalyst, 16, 0) || at_least(v, AppleOS::TvOS, 16, 0)
            || at_least(v, AppleOS::VisionOS, 1, 0),
        ApiFeature::AddNotification => at_least(v, AppleOS::IOS, 10, 0) || at_least(v, AppleOS::MacOS, 10, 14)
            || at_least(v, AppleOS::MacCatalyst, 13, 1) || at_least(v, AppleOS::TvOS, 10, 0)
            || at_least(v, AppleOS::WatchOS, 3, 0),
        ApiFeature::TargetContentIdentifier => at_least(v, AppleOS::IOS, 13, 0)
            || at_least(v, AppleOS::MacOS, 10, 15) || at_least(v, AppleOS::MacCatalyst, 13, 1)
            || at_least(v, AppleOS::TvOS, 13, 0) || at_least(v, AppleOS::WatchOS, 6, 0)
            || at_least(v, AppleOS::VisionOS, 1, 0),
        ApiFeature::SummaryArgument => within(v, AppleOS::IOS, (12, 0), (15, 0))
            || at_least(v, AppleOS::MacOS, 10, 14) || within(v, AppleOS::MacCatalyst, (13, 1), (15, 0))
            || within(v, AppleOS::TvOS, (12, 0), (15, 0)) || within(v, AppleOS::WatchOS, (5, 0), (8, 0))
            || within(v, AppleOS::VisionOS, (1, 0), (1, 0)),
        ApiFeature::InterruptionLevel | ApiFeature::ActionIcon => at_least(v, AppleOS::IOS, 15, 0)
            || at_least(v, AppleOS::MacOS, 12, 0) || at_least(v, AppleOS::MacCatalyst, 15, 0)
            || at_least(v, AppleOS::TvOS, 15, 0) || at_least(v, AppleOS::WatchOS, 8, 0)
            || at_least(v, AppleOS::VisionOS, 1, 0),
        ApiFeature::FilterCriteria => at_least(v, AppleOS::IOS, 16, 0) || at_least(v, AppleOS::MacOS, 13, 0)
            || at_least(v, AppleOS::MacCatalyst, 16, 0) || at_least(v, AppleOS::TvOS, 16, 0)
            || at_least(v, AppleOS::WatchOS, 9, 0) || at_least(v, AppleOS::VisionOS, 1, 0),
        ApiFeature::DefaultCriticalSound => at_least(v, AppleOS::IOS, 12, 0)
            || at_least(v, AppleOS::MacOS, 10, 14) || at_least(v, AppleOS::MacCatalyst, 13, 1)
            || at_least(v, AppleOS::VisionOS, 1, 0) || at_least(v, AppleOS::WatchOS, 5, 0),
        ApiFeature::NamedCriticalSound => at_least(v, AppleOS::IOS, 12, 0)
            || at_least(v, AppleOS::MacOS, 10, 14) || at_least(v, AppleOS::MacCatalyst, 13, 1)
            || at_least(v, AppleOS::VisionOS, 1, 0),
        ApiFeature::Ringtone => at_least(v, AppleOS::IOS, 15, 2),
        ApiFeature::ThumbnailTime => !(v.0 == AppleOS::WatchOS && v.1 < 6),
    }
}

/// `w` is the same system as `v`, at the same or a later version.
pub open spec fn same_os_not_older(v: AppleVersion, w: AppleVersion) -> bool {
    v.0 == w.0 && (w.1 > v.1 || (w.1 == v.1 && w.2 >= v.2))
}

/// Updating the OS never takes a feature away, but for the summary argument,
/// which iOS, Mac Catalyst, tvOS, watchOS and visionOS dropped in later
/// versions.
pub proof fn lemma_features_kept_on_update(v: AppleVersion, w: AppleVersion, f: ApiFeature)
    requires
        same_os_not_older(v, w),
        feature_available(v, f),
        f != ApiFeature::SummaryArgument,
    ensures
        feature_available(w, f),
{
}

impl AppleVersion {
    /// Whether the native API behind `feature` can be called on this version.
    pub fn supports(&self, feature: ApiFeature) -> (r: bool)
        ensures
            r == feature_available(*self, feature),
    {
        let av = *self;
        match feature {
            ApiFeature::Authorization => av >= (AppleOS::IOS, 10, 0) || av >= (AppleOS::MacOS, 10, 14)
                || av >= (AppleOS::MacCatalyst, 13, 1) || av >= (AppleOS::TvOS, 10, 0)
                || av >= (AppleOS::VisionOS, 1, 0) || av >= (AppleOS::WatchOS, 3, 0),
            ApiFeature::BadgeCount => av >= (AppleOS::IOS, 16, 0) || av >= (AppleOS::MacOS, 13, 0)
                || av >= (AppleOS::MacCatalyst, 16, 0) || av >= (AppleOS::TvOS, 16, 0)
                || av >= (AppleOS::VisionOS, 1, 0),
            ApiFeature::AddNotification => av >= (AppleOS::IOS, 10, 0) || av >= (AppleOS::MacOS, 10, 14)
                || av >= (AppleOS::MacCatalyst, 13, 1) || av >= (AppleOS::TvOS, 10, 0)
                || av >= (AppleOS::WatchOS, 3, 0),
            ApiFeature::TargetContentIdentifier => av >= (AppleOS::IOS, 13, 0)
                || av >= (AppleOS::MacOS, 10, 15) || av >= (AppleOS::MacCatalyst, 13, 1)
                || av >= (AppleOS::TvOS, 13, 0) || av >= (AppleOS::WatchOS, 6, 0)
                || av >= (AppleOS::VisionOS, 1, 0),
            ApiFeature::SummaryArgument => (av >= (AppleOS::IOS, 12, 0) && av <= (AppleOS::IOS, 15, 0))
                || av >= (AppleOS::MacOS, 10, 14)
                || (av >= (AppleOS::MacCatalyst, 13, 1) && av <= (AppleOS::MacCatalyst, 15, 0))
                || (av >= (AppleOS::TvOS, 12, 0) && av <= (AppleOS::TvOS, 15, 0))
                || (av >= (AppleOS::WatchOS, 5, 0) && av <= (AppleOS::WatchOS, 8, 0))
                || (av >= (AppleOS::VisionOS, 1, 0) && av <= (AppleOS::VisionOS, 1, 0)),
            ApiFeature::InterruptionLevel | ApiFeature::ActionIcon => av >= (AppleOS::IOS, 15, 0)
                || av >= (AppleOS::MacOS, 12, 0) || av >= (AppleOS::MacCatalyst, 15, 0)
                || av >= (AppleOS::TvOS, 15, 0) || av >= (AppleOS::WatchOS, 8, 0)
                || av >= (AppleOS::VisionOS, 1, 0),
            ApiFeature::FilterCriteria => av >= (AppleOS::IOS, 16, 0) || av >= (AppleOS::MacOS, 13, 0)
                || av >= (AppleOS::MacCatalyst, 16, 0) || av >= (AppleOS::TvOS, 16, 0)
                || av >= (AppleOS::WatchOS, 9, 0) || av >= (AppleOS::VisionOS, 1, 0),
            ApiFeature::DefaultCriticalSound => av >= (AppleOS::IOS, 12, 0)
                || av >= (AppleOS::MacOS, 10, 14) || av >= (AppleOS::MacCatalyst, 13, 1)
                || av >= (AppleOS::VisionOS, 1, 0) || av >= (AppleOS::WatchOS, 5, 0),
            ApiFeature::NamedCriticalSound => av >= (AppleOS::IOS, 12, 0)
                || av >= (AppleOS::MacOS, 10, 14) || av >= (AppleOS::MacCatalyst, 13, 1)
                || av >= (AppleOS::VisionOS, 1, 0),
            ApiFeature::Ringtone => av >= (AppleOS::IOS, 15, 2),
            ApiFeature::ThumbnailTime => !(av < (AppleOS::WatchOS, 6, 0)),
        }
    }
}

} // verus!
