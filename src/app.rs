use vstd::prelude::*;

use crate::clock::clock_now;
use crate::model::{other_mode, total_spec, AppModel};
use crate::session::{Session, SessionType};

verus! {

/// `n`, or `u64::MAX` where it does not fit.
pub open spec fn saturate(n: nat) -> u64 {
    if n > u64::MAX {
        u64::MAX
    } else {
        n as u64
    }
}

/// The length of the last interval of the active mode as a `u64` (it
/// always fits), if there is one.
pub open spec fn current_duration_u64(m: AppModel, now: u64) -> Option<u64> {
    match m.current_duration_spec(now) {
        Some(d) => Some(d as u64),
        None => None,
    }
}

/// The session tracker: per-mode interval logs, the active mode, and whether
/// timing is paused.
pub struct App {
    focus_sessions: Vec<Session>,
    rest_sessions: Vec<Session>,
    paused: bool,
    current_session_type: SessionType,
}

impl View for App {
    type V = AppModel;

    closed spec fn view(&self) -> AppModel {
        AppModel {
            focus: self.focus_sessions@,
            rest: self.rest_sessions@,
            paused: self.paused,
            mode: self.current_session_type,
        }
    }
}

impl App {
    pub open spec fn wf(&self) -> bool {
        self@.wf()
    }

    /// A paused tracker in focus mode with no interval recorded.
    pub fn new() -> (r: App)
        ensures
            r@ == AppModel::initial(),
            r.wf(),
    {
        App {
            focus_sessions: Vec::new(),
            rest_sessions: Vec::new(),
            paused: true,
            current_session_type: SessionType::Focus,
        }
    }

    pub fn current_session_type(&self) -> (r: SessionType)
        ensures
            r == self@.mode,
    {
        self.current_session_type
    }

    pub fn is_paused(&self) -> (r: bool)
        ensures
            r == self@.paused,
    {
        self.paused
    }

    fn sessions_of(&self, t: SessionType) -> (r: &Vec<Session>)
        ensures
            r@ == self@.sessions(t),
    {
        match t {
            SessionType::Focus => &self.focus_sessions,
            SessionType::Rest => &self.rest_sessions,
        }
    }

    fn start_new_session(&mut self, new_session_type: SessionType, now: u64)
        ensures
            final(self)@ == old(self)@.open_session(new_session_type, now),
    {
        self.current_session_type = new_session_type;
        match new_session_type {
            SessionType::Focus => self.focus_sessions.push(Session::new_at(now)),
            SessionType::Rest => self.rest_sessions.push(Session::new_at(now)),
        }
    }

    fn end_current_session(&mut self, now: u64)
        ensures
            final(self)@ == old(self)@.close_current(now),
    {
        if let Some(session) = self.get_current_session() {
            if session.end.is_none() {
                let closed = Session { start: session.start, end: Some(now) };
                match self.current_session_type {
                    SessionType::Focus => {
                        let last = self.focus_sessions.len() - 1;
                        self.focus_sessions.set(last, closed);
                    },
                    SessionType::Rest => {
                        let last = self.rest_sessions.len() - 1;
                        self.rest_sessions.set(last, closed);
                    },
                }
            }
        }
    }

    fn get_current_session(&self) -> (r: Option<Session>)
        ensures
            ({
                let s = self@.sessions(self@.mode);
                if s.len() == 0 {
                    r is None
                } else {
                    r == Some(s.last())
                }
            }),
    {
        let sessions = self.sessions_of(self.current_session_type);
        if sessions.len() == 0 {
            None
        } else {
            Some(sessions[sessions.len() - 1])
        }
    }

    /// Resumes timing at `now` in the active mode; does nothing while running.
    pub fn start_at(&mut self, now: u64)
        requires
            old(self).wf(),
        ensures
            final(self)@ == old(self)@.start_spec(now),
            final(self).wf(),
    {
        if !self.paused {
            return;
        }
        self.paused = false;
        self.start_new_session(self.current_session_type, now);
        proof {
            let s = final(self)@.sessions(final(self)@.mode);
            assert(s.drop_last() == old(self)@.sessions(old(self)@.mode));
        }
    }

    /// Pauses timing at `now`, closing the open interval; does nothing while
    /// paused.
    pub fn pause_at(&mut self, now: u64)
        requires
            old(self).wf(),
        ensures
            final(self)@ == old(self)@.pause_spec(now),
            final(self).wf(),
    {
        if self.paused {
            return;
        }
        self.paused = true;
        self.end_current_session(now);
        proof {
            let s0 = old(self)@.sessions(old(self)@.mode);
            let s1 = final(self)@.sessions(final(self)@.mode);
            assert forall|i: int| 0 <= i < s1.len() implies (#[trigger] s1[i]).end is Some by {
                if i < s1.len() - 1 {
                    assert(s1[i] == s0.drop_last()[i]);
                }
            }
        }
    }

    /// Pauses when running, resumes when paused.
    pub fn toggle_pause_at(&mut self, now: u64)
        requires
            old(self).wf(),
        ensures
            final(self)@ == old(self)@.toggle_pause_spec(now),
            final(self).wf(),
    {
        if self.paused {
            self.start_at(now);
        } else {
            self.pause_at(now)
        }
    }

    /// Switches to `session_type` at `now`, resuming first when paused; a
    /// switch to the active mode changes nothing more.
    pub fn change_session_type_at(&mut self, session_type: SessionType, now: u64)
        requires
            old(self).wf(),
        ensures
            final(self)@ == old(self)@.change_session_type_spec(session_type, now),
            final(self).wf(),
            !final(self)@.paused,
            final(self)@.mode == session_type,
    {
        if self.paused {
            self.start_at(now);
        }
        if self.current_session_type == session_type {
            return;
        }
        let ghost running = self@;
        self.end_current_session(now);
        let ghost closed = self@;
        self.start_new_session(session_type, now);
        proof {
            let s0 = running.sessions(running.mode);
            let s1 = closed.sessions(running.mode);
            assert forall|i: int| 0 <= i < s1.len() implies (#[trigger] s1[i]).end is Some by {
                if i < s1.len() - 1 {
                    assert(s1[i] == s0.drop_last()[i]);
                }
            }
            assert(other_mode(session_type) == running.mode);
            assert(self@.sessions(session_type).drop_last() == closed.sessions(session_type));
        }
    }

    /// The length of the last interval of the active mode, measured up to
    /// `now` while open; `None` when that mode has no interval yet.
    pub fn get_current_session_duration_at(&self, now: u64) -> (r: Option<u64>)
        ensures
            r is None <==> self@.current_duration_spec(now) is None,
            r is Some ==> r.unwrap() as nat == self@.current_duration_spec(now).unwrap(),
            r == current_duration_u64(self@, now),
    {
        match self.get_current_session() {
            Some(session) => Some(session.duration_at(now)),
            None => None,
        }
    }

    /// The total time recorded for `session_type`, each open interval counted
    /// up to `now`, saturating at `u64::MAX`.
    pub fn get_session_type_total_duration_at(&self, session_type: SessionType, now: u64) -> (r:
        Option<u64>)
        ensures
            r == Some(saturate(self@.total_duration_spec(session_type, now))),
    {
        let sessions = self.sessions_of(session_type);
        let mut total: u64 = 0;
        let mut i: usize = 0;
        while i < sessions.len()
            invariant
                0 <= i <= sessions@.len(),
                total == saturate(total_spec(sessions@.subrange(0, i as int), now)),
            decreases sessions@.len() - i,
        {
            let d = sessions[i].duration_at(now);
            proof {
                let prefix = sessions@.subrange(0, i + 1);
                assert(prefix.drop_last() == sessions@.subrange(0, i as int));
                assert(prefix.last() == sessions@[i as int]);
            }
            if total > u64::MAX - d {
                total = u64::MAX;
            } else {
                total = total + d;
            }
            i = i + 1;
        }
        proof {
            assert(sessions@.subrange(0, sessions@.len() as int) == sessions@);
        }
        Some(total)
    }
    /// Resumes timing at the current time; does nothing while running.
    pub fn start(&mut self)
        requires
            old(self).wf(),
        ensures
            exists|now: u64| final(self)@ == #[trigger] old(self)@.start_spec(now),
            final(self).wf(),
    {
        let now = clock_now();
        self.start_at(now);
    }

    /// Pauses timing at the current time; does nothing while paused.
    pub fn pause(&mut self)
        requires
            old(self).wf(),
        ensures
            exists|now: u64| final(self)@ == #[trigger] old(self)@.pause_spec(now),
            final(self).wf(),
    {
        let now = clock_now();
        self.pause_at(now);
    }

    /// Pauses when running, resumes when paused, at the current time.
    pub fn toggle_pause(&mut self)
        requires
            old(self).wf(),
        ensures
            exists|now: u64| final(self)@ == #[trigger] old(self)@.toggle_pause_spec(now),
            final(self).wf(),
    {
        let now = clock_now();
        self.toggle_pause_at(now);
    }

    /// Switches to `session_type` at the current time, resuming first when
    /// paused.
    pub fn change_session_type(&mut self, session_type: SessionType)
        requires
            old(self).wf(),
        ensures
            exists|now: u64|
                final(self)@ == #[trigger] old(self)@.change_session_type_spec(session_type, now),
            final(self).wf(),
            !final(self)@.paused,
            final(self)@.mode == session_type,
    {
        let now = clock_now();
        self.change_session_type_at(session_type, now);
    }

    /// The length of the last interval of the active mode, measured up to the
    /// current time while open; `None` when that mode has no interval yet.
    pub fn get_current_session_duration(&self) -> (r: Option<u64>)
        ensures
            exists|now: u64| r == #[trigger] current_duration_u64(self@, now),
            r is None <==> self@.sessions(self@.mode).len() == 0,
    {
        let now = clock_now();
        self.get_current_session_duration_at(now)
    }

    /// The total time recorded for `session_type`, measured up to the current
    /// time.
    pub fn get_session_type_total_duration(&self, session_type: SessionType) -> (r: Option<u64>)
        ensures
            exists|now: u64|
                r == Some(saturate(#[trigger] self@.total_duration_spec(session_type, now))),
    {
        let now = clock_now();
        self.get_session_type_total_duration_at(session_type, now)
    }
}

impl Default for App {
    fn default() -> (r: App)
        ensures
            r@ == AppModel::initial(),
    {
        App::new()
    }
}

} // verus!
