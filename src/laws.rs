use vstd::prelude::*;

use crate::model::{all_closed, total_spec, AppModel};
use crate::session::{Session, SessionType};

verus! {

/// A log whose intervals are all closed has a total that does not depend on
/// the instant it is measured at.
pub proof fn lemma_closed_total_fixed(s: Seq<Session>, q1: u64, q2: u64)
    requires
        all_closed(s),
    ensures
        total_spec(s, q1) == total_spec(s, q2),
    decreases s.len(),
{
    if s.len() > 0 {
        assert(all_closed(s.drop_last()));
        lemma_closed_total_fixed(s.drop_last(), q1, q2);
    }
}

proof fn lemma_total_push(s: Seq<Session>, x: Session, now: u64)
    ensures
        total_spec(s.push(x), now) == total_spec(s, now) + x.duration_spec(now),
{
    assert(s.push(x).drop_last() == s);
}

proof fn lemma_total_close_last(s: Seq<Session>, end: u64, now: u64)
    requires
        s.len() > 0,
    ensures
        ({
            let c = s.update(s.len() - 1, Session { start: s.last().start, end: Some(end) });
            total_spec(c, now) == total_spec(s.drop_last(), now) + Session {
                start: s.last().start,
                end: Some(end),
            }.duration_spec(now)
        }),
{
    let c = s.update(s.len() - 1, Session { start: s.last().start, end: Some(end) });
    assert(c.drop_last() == s.drop_last());
}

/// Starting twice in a row leaves the same state as starting once.
pub proof fn lemma_start_idempotent(m: AppModel, t1: u64, t2: u64)
    ensures
        m.start_spec(t1).start_spec(t2) == m.start_spec(t1),
{
}

/// Pausing twice in a row leaves the same state, and so the same current
/// duration at any later instant, as pausing once.
pub proof fn lemma_pause_idempotent(m: AppModel, t1: u64, t2: u64, q: u64)
    ensures
        m.pause_spec(t1).pause_spec(t2) == m.pause_spec(t1),
        m.pause_spec(t1).pause_spec(t2).current_duration_spec(q) == m.pause_spec(
            t1,
        ).current_duration_spec(q),
{
}

/// Once paused, the current interval's duration no longer changes with the
/// instant it is measured at.
pub proof fn lemma_pause_freezes_current(m: AppModel, t: u64, q1: u64, q2: u64)
    requires
        m.wf(),
    ensures
        m.pause_spec(t).current_duration_spec(q1) == m.pause_spec(t).current_duration_spec(q2),
{
    let p = m.pause_spec(t);
    let s = p.sessions(p.mode);
    if !m.paused {
        assert(s.last().end == Some(t));
    } else if s.len() > 0 {
        assert(s[s.len() - 1].end is Some);
    }
}

/// Start at `t0`, pause at `t1`, start again at `t2`: measured at `t3`, the
/// active mode's total has grown by exactly `(t1 - t0) + (t3 - t2)`; the gap
/// between `t1` and `t2` is not counted.
pub proof fn lemma_resume_accumulates(m: AppModel, t0: u64, t1: u64, t2: u64, t3: u64)
    requires
        m.wf(),
        m.paused,
        t0 <= t1 <= t2 <= t3,
    ensures
        ({
            let r = m.start_spec(t0).pause_spec(t1).start_spec(t2);
            r.total_duration_spec(m.mode, t3) == m.total_duration_spec(m.mode, t3) + (t1 - t0) + (
            t3 - t2)
        }),
{
    let s = m.sessions(m.mode);
    let a = m.start_spec(t0);
    let b = a.pause_spec(t1);
    let c = b.start_spec(t2);
    let sa = a.sessions(m.mode);
    let sb = b.sessions(m.mode);
    let sc = c.sessions(m.mode);
    assert(all_closed(s));
    lemma_closed_total_fixed(s, t1, t3);
    assert(sa == s.push(Session { start: t0, end: None }));
    assert(sa.drop_last() == s);
    lemma_total_close_last(sa, t1, t1);
    assert(sb.drop_last() == s);
    assert(all_closed(sb)) by {
        assert forall|i: int| 0 <= i < sb.len() implies (#[trigger] sb[i]).end is Some by {
            if i < sb.len() - 1 {
                assert(sb[i] == s[i]);
            }
        }
    }
    lemma_closed_total_fixed(sb, t1, t3);
    lemma_total_push(sb, Session { start: t2, end: None }, t3);
}

/// Time never accrues to a mode that is not running: its total is the same
/// whenever it is measured, and starting, pausing or switching to the mode
/// already active leaves its intervals untouched.
pub proof fn lemma_mode_isolation(m: AppModel, x: SessionType, t: u64, q1: u64, q2: u64)
    requires
        m.wf(),
        m.paused || m.mode != x,
    ensures
        m.total_duration_spec(x, q1) == m.total_duration_spec(x, q2),
        m.mode != x ==> m.start_spec(t).sessions(x) == m.sessions(x),
        m.mode != x ==> m.pause_spec(t).sessions(x) == m.sessions(x),
        m.mode != x ==> m.toggle_pause_spec(t).sessions(x) == m.sessions(x),
        m.mode != x ==> m.change_session_type_spec(m.mode, t).sessions(x) == m.sessions(x),
{
    lemma_closed_total_fixed(m.sessions(x), q1, q2);
}

/// Switching away from a mode at `t` fixes that mode's total at its value at
/// `t`, however long afterwards it is measured.
pub proof fn lemma_switch_freezes_previous(m: AppModel, x: SessionType, t: u64, q: u64)
    requires
        m.wf(),
        m.mode != x,
    ensures
        m.change_session_type_spec(x, t).total_duration_spec(m.mode, q) == m.total_duration_spec(
            m.mode,
            t,
        ),
{
    let r = m.start_spec(t);
    let s = r.sessions(m.mode);
    let c = r.close_current(t);
    let sc = c.sessions(m.mode);
    lemma_total_close_last(s, t, t);
    lemma_total_close_last(s, t, q);
    assert(sc.drop_last() == s.drop_last());
    assert(all_closed(s.drop_last()));
    lemma_closed_total_fixed(s.drop_last(), t, q);
    if m.paused {
        assert(all_closed(m.sessions(m.mode)));
        assert(s.drop_last() == m.sessions(m.mode));
    } else {
        assert(s == m.sessions(m.mode));
    }
}

/// A switch leaves the tracker running in the chosen mode, with an open
/// interval in that mode.
pub proof fn lemma_switch_runs(m: AppModel, x: SessionType, t: u64)
    requires
        m.wf(),
    ensures
        !m.change_session_type_spec(x, t).paused,
        m.change_session_type_spec(x, t).mode == x,
        m.change_session_type_spec(x, t).sessions(x).len() > 0,
        m.change_session_type_spec(x, t).sessions(x).last().is_open(),
{
}

/// A switch to the active mode opens no new interval: it only resumes when
/// paused, and changes nothing while running.
pub proof fn lemma_same_mode_switch(m: AppModel, t: u64)
    ensures
        m.change_session_type_spec(m.mode, t) == m.start_spec(t),
        !m.paused ==> m.change_session_type_spec(m.mode, t) == m,
{
}

} // verus!
