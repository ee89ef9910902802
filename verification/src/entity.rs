//! The rows the service reads: users and their posts.

use vstd::prelude::*;

verus! {

/// A point in time as seconds and nanoseconds since the Unix epoch, in UTC.
#[derive(Debug, Clone, Copy, PartialEq, Eq, Structural)]
pub struct Timestamp {
    pub secs: i64,
    pub nanos: u32,
}

impl Timestamp {
    /// The Unix epoch, `1970-01-01T00:00:00Z`.
    pub open spec fn spec_epoch() -> Timestamp {
        Timestamp { secs: 0, nanos: 0 }
    }

    /// The Unix epoch.
    pub fn epoch() -> (t: Timestamp)
        ensures
            t == Timestamp::spec_epoch(),
    {
        Timestamp { secs: 0, nanos: 0 }
    }
}

impl Default for Timestamp {
    /// The Unix epoch, as the default of a UTC date and time is.
    fn default() -> (t: Timestamp)
        ensures
            t == Timestamp::spec_epoch(),
    {
        Timestamp::epoch()
    }
}

/// A row of the `users` table; `id` is its primary key.
#[derive(Debug, Clone, PartialEq)]
pub struct Model {
    pub id: i32,
    pub username: String,
    pub email: String,
    pub created_at: Timestamp,
}

/// The relations of a user: a user has many posts.
#[derive(Debug, Clone, Copy, PartialEq, Eq, Structural)]
pub enum Relation {
    Post,
}

/// A row of the posts table; `user_id` is the id of its author.
#[derive(Debug, PartialEq)]
pub struct PostModel {
    pub id: i32,
    pub user_id: i32,
    pub title: String,
    pub content: String,
    pub created_at: Timestamp,
}

} // verus!
