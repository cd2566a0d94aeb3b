//! When to write battery RAM to disk: changes are noted as they happen and
//! a save is due once the RAM has been quiet for a while, so a burst of
//! writes costs one save.
use vstd::prelude::*;

verus! {

/// Flush battery RAM this many milliseconds after the last write settles.
pub const AUTOSAVE_DEBOUNCE_MS: u64 = 2000;

#[derive(Debug, Clone, Copy, PartialEq, Eq, Structural)]
pub struct Autosave {
    /// Battery RAM has changed since the last save.
    pub unsaved: bool,
    /// When the most recent battery-RAM write was noticed, in milliseconds.
    pub last_change: Option<u64>,
}

impl Autosave {
    /// The state after one poll at time `now` that saw a RAM change iff
    /// `dirty`.
    pub open spec fn note_spec(self, dirty: bool, now: u64) -> Autosave {
        if dirty {
            Autosave { unsaved: true, last_change: Some(now) }
        } else {
            self
        }
    }

    /// Whether a save is due at `now`: unsaved changes that have been quiet
    /// for the debounce time (a clock that went backwards counts as no time).
    pub open spec fn due_spec(self, now: u64) -> bool {
        &&& self.unsaved
        &&& self.last_change matches Some(t)
        &&& now >= t && now - t >= AUTOSAVE_DEBOUNCE_MS
    }

    /// Nothing to save yet.
    pub fn new() -> (r: Autosave)
        ensures
            r == (Autosave { unsaved: false, last_change: None }),
    {
        Autosave { unsaved: false, last_change: None }
    }

    /// Poll once per frame with whether the cartridge RAM was written since
    /// the last poll; returns whether a save should be written now.
    pub fn tick(&mut self, dirty: bool, now: u64) -> (due: bool)
        ensures
            *final(self) == old(self).note_spec(dirty, now),
            due == final(self).due_spec(now),
    {
        if dirty {
            self.unsaved = true;
            self.last_change = Some(now);
        }
        if !self.unsaved {
            return false;
        }
        match self.last_change {
            Some(t) => now >= t && now - t >= AUTOSAVE_DEBOUNCE_MS,
            None => false,
        }
    }

    /// The RAM was written to disk.
    pub fn saved(&mut self)
        ensures
            *final(self) == (Autosave { unsaved: false, ..*old(self) }),
    {
        self.unsaved = false;
    }

    /// A new game was loaded: nothing of it is unsaved.
    pub fn reset(&mut self)
        ensures
            *final(self) == (Autosave { unsaved: false, last_change: None }),
    {
        self.unsaved = false;
        self.last_change = None;
    }
}

/// A poll that sees a change is never due: the RAM must first be quiet for
/// the debounce time.
pub proof fn lemma_change_defers_save(a: Autosave, now: u64)
    ensures
        !a.note_spec(true, now).due_spec(now),
{
}

/// Once a change has been quiet for the debounce time, the next poll
/// without a change is due.
pub proof fn lemma_quiet_change_is_saved(a: Autosave, t: u64, now: u64)
    requires
        now >= t,
        now - t >= AUTOSAVE_DEBOUNCE_MS,
    ensures
        a.note_spec(true, t).note_spec(false, now).due_spec(now),
{
}

} // verus!
