use vstd::prelude::*;

use crate::session::{Session, SessionType};

verus! {

/// Every interval of `s` is closed.
pub open spec fn all_closed(s: Seq<Session>) -> bool {
    forall|i: int| 0 <= i < s.len() ==> (#[trigger] s[i]).end is Some
}

/// The sum of the lengths of the intervals of `s`, each measured up to `now`
/// while open.
pub open spec fn total_spec(s: Seq<Session>, now: u64) -> nat
    decreases s.len(),
{
    if s.len() == 0 {
        0
    } else {
        total_spec(s.drop_last(), now) + s.last().duration_spec(now)
    }
}

pub open spec fn other_mode(t: SessionType) -> SessionType {
    match t {
        SessionType::Focus => SessionType::Rest,
        SessionType::Rest => SessionType::Focus,
    }
}

/// The abstract state of the tracker: the intervals recorded for each mode in
/// chronological order, whether it is paused, and the active mode.
pub struct AppModel {
    pub focus: Seq<Session>,
    pub rest: Seq<Session>,
    pub paused: bool,
    pub mode: SessionType,
}

impl AppModel {
    pub open spec fn initial() -> AppModel {
        AppModel { focus: Seq::empty(), rest: Seq::empty(), paused: true, mode: SessionType::Focus }
    }

    pub open spec fn sessions(self, t: SessionType) -> Seq<Session> {
        match t {
            SessionType::Focus => self.focus,
            SessionType::Rest => self.rest,
        }
    }

    pub open spec fn with_sessions(self, t: SessionType, s: Seq<Session>) -> AppModel {
        match t {
            SessionType::Focus => AppModel { focus: s, ..self },
            SessionType::Rest => AppModel { rest: s, ..self },
        }
    }

    /// While paused no interval is open; while running exactly one is, the
    /// last one of the active mode.
    pub open spec fn wf(self) -> bool {
        if self.paused {
            all_closed(self.focus) && all_closed(self.rest)
        } else {
            let s = self.sessions(self.mode);
            &&& s.len() > 0
            &&& s.last().is_open()
            &&& all_closed(s.drop_last())
            &&& all_closed(self.sessions(other_mode(self.mode)))
        }
    }

    /// Makes `t` the active mode and appends to it an interval open from `now`.
    pub open spec fn open_session(self, t: SessionType, now: u64) -> AppModel {
        AppModel {
            mode: t,
            ..self.with_sessions(t, self.sessions(t).push(Session { start: now, end: None }))
        }
    }

    /// Closes the last interval of the active mode at `now`, if it is open.
    pub open spec fn close_current(self, now: u64) -> AppModel {
        let s = self.sessions(self.mode);
        if s.len() > 0 && s.last().is_open() {
            self.with_sessions(
                self.mode,
                s.update(s.len() - 1, Session { start: s.last().start, end: Some(now) }),
            )
        } else {
            self
        }
    }

    pub open spec fn start_spec(self, now: u64) -> AppModel {
        if !self.paused {
            self
        } else {
            AppModel { paused: false, ..self }.open_session(self.mode, now)
        }
    }

    pub open spec fn pause_spec(self, now: u64) -> AppModel {
        if self.paused {
            self
        } else {
            AppModel { paused: true, ..self }.close_current(now)
        }
    }

    pub open spec fn toggle_pause_spec(self, now: u64) -> AppModel {
        if self.paused {
            self.start_spec(now)
        } else {
            self.pause_spec(now)
        }
    }

    /// Resumes if paused; then, unless `t` is already active, closes the
    /// current interval and opens one in `t`.
    pub open spec fn change_session_type_spec(self, t: SessionType, now: u64) -> AppModel {
        let running = self.start_spec(now);
        if running.mode == t {
            running
        } else {
            running.close_current(now).open_session(t, now)
        }
    }

    /// The length of the last interval of the active mode, if there is one.
    pub open spec fn current_duration_spec(self, now: u64) -> Option<nat> {
        let s = self.sessions(self.mode);
        if s.len() == 0 {
            None
        } else {
            Some(s.last().duration_spec(now))
        }
    }

    /// The total time recorded for mode `t`, measured up to `now`.
    pub open spec fn total_duration_spec(self, t: SessionType, now: u64) -> nat {
        total_spec(self.sessions(t), now)
    }
}

} // verus!
