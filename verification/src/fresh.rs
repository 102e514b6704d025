//! What a change takes from outside: a salt and the time.

use vstd::prelude::*;

use crate::clock::{is_instant_text, now_rfc3339};
use crate::passcode::{fresh_salt, is_salt};

verus! {

/// A salt and two readings of the clock, for one change of the store.
#[derive(Debug)]
pub struct Fresh {
    /// The salt of a passcode that the change sets.
    pub salt: String,
    /// The time that the change writes into a record.
    pub record_at: String,
    /// The time of the live snapshot that the change leads to.
    pub live_at: String,
}

/// What a [`Fresh`] stands for.
pub struct FreshView {
    pub salt: Seq<char>,
    pub record_at: Seq<char>,
    pub live_at: Seq<char>,
}

impl View for Fresh {
    type V = FreshView;

    open spec fn view(&self) -> FreshView {
        FreshView {
            salt: self.salt@,
            record_at: self.record_at@,
            live_at: self.live_at@,
        }
    }
}

impl FreshView {
    /// What [`Fresh::draw`] can draw: a salt, and the texts of two instants.
    pub open spec fn is_drawn(self) -> bool {
        &&& is_salt(self.salt)
        &&& is_instant_text(self.record_at)
        &&& is_instant_text(self.live_at)
    }
}

impl Fresh {
    /// Draws a salt and reads the clock.
    pub fn draw() -> (r: Fresh)
        ensures
            r@.is_drawn(),
    {
        Fresh { salt: fresh_salt(), record_at: now_rfc3339(), live_at: now_rfc3339() }
    }
}

} // verus!
