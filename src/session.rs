use vstd::prelude::*;

use crate::clock::clock_now;

verus! {

/// The two mutually exclusive activity modes.
#[derive(Clone, Copy, Debug, PartialEq, Eq, Structural, Hash)]
pub enum SessionType {
    Focus,
    Rest,
}

impl SessionType {
    /// The mode's display name.
    pub fn name(&self) -> (r: &'static str)
        ensures
            r@ == self.name_spec(),
    {
        proof {
            reveal_strlit("Focus");
            reveal_strlit("Rest");
        }
        match self {
            SessionType::Focus => "Focus",
            SessionType::Rest => "Rest",
        }
    }

    pub open spec fn name_spec(&self) -> Seq<char> {
        match self {
            SessionType::Focus => seq!['F', 'o', 'c', 'u', 's'],
            SessionType::Rest => seq!['R', 'e', 's', 't'],
        }
    }
}

/// The span from `start` to `end`, clamped to zero when the clock went
/// backwards in between.
pub open spec fn span(start: u64, end: u64) -> nat {
    if end >= start {
        (end - start) as nat
    } else {
        0
    }
}

/// One interval of time attributed to a mode: open while `end` is `None`.
#[derive(Clone, Copy, Debug)]
pub struct Session {
    pub start: u64,
    pub end: Option<u64>,
}

impl Session {
    pub open spec fn is_open(self) -> bool {
        self.end is None
    }

    /// The interval's length, measured up to `now` while it is open.
    pub open spec fn duration_spec(self, now: u64) -> nat {
        match self.end {
            Some(e) => span(self.start, e),
            None => span(self.start, now),
        }
    }

    /// An open interval that starts at the current time.
    pub fn new() -> (r: Session)
        ensures
            r.is_open(),
    {
        Session::new_at(clock_now())
    }

    /// An open interval that starts at `now`.
    pub fn new_at(now: u64) -> (r: Session)
        ensures
            r == (Session { start: now, end: None }),
    {
        Session { start: now, end: None }
    }

    /// The interval's length, measured up to `now` while it is open.
    pub fn duration_at(&self, now: u64) -> (r: u64)
        ensures
            r == self.duration_spec(now),
    {
        let end = match self.end {
            Some(e) => e,
            None => now,
        };
        if end >= self.start {
            end - self.start
        } else {
            0
        }
    }
}

impl Default for Session {
    fn default() -> (r: Session)
        ensures
            r.is_open(),
    {
        Session::new()
    }
}

} // verus!
