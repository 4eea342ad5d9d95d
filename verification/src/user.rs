//! The user profile. Points in time are held as seconds since the Unix epoch.

use crate::task::Task;
use vstd::prelude::*;

verus! {

#[verifier::external_type_specification]
#[verifier::external_body]
pub struct ExUuid(uuid::Uuid);

/// `uuid::Uuid` derives `Clone` together with `Copy`, so its clone is the same
/// value; this is what is claimed of `<Uuid as Clone>::clone`.
pub assume_specification[ <uuid::Uuid as Clone>::clone ](u: &uuid::Uuid) -> (r: uuid::Uuid)
    ensures
        r == *u,
;

/// A user and their progress.
#[derive(Debug, Clone)]
pub struct User {
    id: uuid::Uuid,
    contact: Contact,
    /// Seconds since the Unix epoch.
    birth_date: Option<i64>,
    birth_place: Option<String>,
    age: Option<i32>,
    username: Option<String>,
    profile_picture_url: Option<Url>,
    preferences: Preferences,
    completed_tasks: Option<Vec<Task>>,
    current_level: i32,
    xp_points: i32,
}

/// How to reach a user.
#[derive(Debug, Clone)]
pub struct Contact {
    name: String,
    title: String,
    email: String,
}

#[derive(Debug, Clone)]
struct Url {
    url: String,
}

#[derive(Debug, Clone)]
struct Preferences {
    theme: String,
    notification_settings: NotificationSettings,
    language: String,
    time_format: String,
}

#[derive(Debug, Clone)]
struct NotificationSettings {
    email_notifications: bool,
    push_notifications: bool,
    /// Seconds since the Unix epoch.
    reminder_time: Option<i64>,
}

} // verus!
