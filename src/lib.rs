//! Notifications for Apple platforms, described as plain data.
//!
//! The library holds the builders and data types of a notification, decides
//! which native API variant the running OS version supports, and turns each
//! value into a plain description of the native object graph (calendar
//! components, attachment options, sound variants, category and action
//! option bits). Handing those descriptions to the native frameworks is left
//! to the caller.
pub mod error;
pub mod notification;
pub mod os;
mod text;
pub mod un;
pub mod util;
