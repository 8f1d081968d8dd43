//! Stored replay records and the in-memory store that stamps them with an
//! identifier and creation times.
use crate::player::PlayerData;
use vstd::prelude::*;

verus! {

/// The statistics of one analysed replay.
pub struct ReplayData {
    pub player_data: PlayerData,
}

/// A stored replay. Times are milliseconds since the Unix epoch.
pub struct Replay {
    pub id: Option<String>,
    pub title: String,
    pub description: Option<String>,
    pub created_at: Option<i64>,
    pub updated_at: Option<i64>,
}

fn copy_text(s: &Option<String>) -> (r: Option<String>)
    ensures
        r == *s,
{
    match s {
        Some(t) => Some(t.clone()),
        None => None,
    }
}

impl Replay {
    /// A field-by-field copy.
    pub fn duplicate(&self) -> (r: Replay)
        ensures
            r == *self,
    {
        Replay {
            id: copy_text(&self.id),
            title: self.title.clone(),
            description: copy_text(&self.description),
            created_at: self.created_at,
            updated_at: self.updated_at,
        }
    }
}

/// Relies on `uuid::Uuid::new_v4` and `Uuid`'s `Display`, which writes the
/// hyphenated lower-case form: a random identifier of 36 characters.
#[verifier::external_body]
fn new_replay_id() -> (r: String)
    ensures
        r@.len() == 36,
{
    uuid::Uuid::new_v4().to_string()
}

/// Relies on `chrono::Utc::now` and `DateTime::timestamp_millis`: the system
/// clock, in milliseconds since the Unix epoch. Nothing is known of the value;
/// `Utc::now` panics if the clock reads before the epoch.
#[verifier::external_body]
fn now_millis() -> (r: i64) {
    chrono::Utc::now().timestamp_millis()
}

/// The record `replay` stamped with identifier `id`, created and updated at `now`.
pub fn stamp_replay(replay: Replay, id: String, now: i64) -> (r: Replay)
    ensures
        r == (Replay { id: Some(id), created_at: Some(now), updated_at: Some(now), ..replay }),
{
    Replay { id: Some(id), created_at: Some(now), updated_at: Some(now), ..replay }
}

/// In-memory store of replay records, in insertion order.
pub struct Database {
    pub todos: Vec<Replay>,
}

impl Database {
    pub fn new() -> (r: Database)
        ensures
            r.todos@ == Seq::<Replay>::empty(),
    {
        Database { todos: Vec::new() }
    }

    /// Stores `replay` under a fresh random identifier of 36 characters, with
    /// its creation and update times set to the current time, and returns the
    /// stored record.
    pub fn create_replay(&mut self, replay: Replay) -> (r: Replay)
        ensures
            final(self).todos@ == old(self).todos@.push(r),
            r.title == replay.title,
            r.description == replay.description,
            r.id matches Some(id) && id@.len() == 36,
            r.created_at is Some,
            r.created_at == r.updated_at,
    {
        let id = new_replay_id();
        let now = now_millis();
        let stored = stamp_replay(replay, id, now);
        let r = stored.duplicate();
        self.todos.push(stored);
        r
    }
}

} // verus!
