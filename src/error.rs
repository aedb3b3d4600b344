//! Errors returned by the library.
use vstd::prelude::*;

verus! {

/// An error reported by the native framework.
#[derive(Debug)]
pub struct NativeError {
    /// The error code.
    pub code: i64,
    /// The error domain.
    pub domain: String,
    /// The localized description.
    pub message: String,
}

/// All the errors that the library returns.
#[derive(Debug)]
pub enum NotificationError {
    /// An error from the native User Notifications framework.
    NSError(NativeError),
    /// Not supported on the running OS version.
    NotSupported,
    /// A cron pattern that lists more than one value, or none, for a unit of
    /// time: a native calendar trigger matches one value or all of them.
    UnsupportedCronPattern,
    /// A date from which no cron schedule can be made.
    InvalidSchedule,
    /// A delivery date that has already passed.
    ScheduleInThePast,
    /// The notification could not be delivered.
    UnableToDeliver,
    /// The application of the notifications was set before.
    ApplicationAlreadySet,
    /// The application of the notifications could not be set.
    CouldNotSetApplication,
}

} // verus!
