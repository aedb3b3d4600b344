//! Notifications of the User Notifications framework: builders, the types
//! of a notification, and calendar triggers.
pub mod builder;
pub mod calendar;
pub mod notification;
