//! The timer engine: every transition the session record can take, driven by
//! user commands and by the periodic tick.

use vstd::prelude::*;

use crate::config::Config;
use crate::state::{SessionInfo, SessionInfoV, TimerState, HISTORY_LIMIT};
use crate::sys;

verus! {

/// The kind of desktop notification owed when an interval completes, keyed by
/// the state being exited.
#[derive(Debug, Clone, Copy, PartialEq, Eq, Structural)]
pub enum NotificationKind {
    WorkComplete,
    BreakComplete,
    LongBreakComplete,
}

/// The pause transition on the whole record: the state tag moves to its
/// paused counterpart when it has one; nothing else moves.
pub open spec fn sv_pause(v: SessionInfoV) -> SessionInfoV {
    match v.current_state.spec_pause() {
        Some(p) => SessionInfoV { current_state: p, ..v },
        None => v,
    }
}

/// The resume transition on the whole record: the inverse of `sv_pause`.
pub open spec fn sv_resume(v: SessionInfoV) -> SessionInfoV {
    match v.current_state.spec_resume() {
        Some(p) => SessionInfoV { current_state: p, ..v },
        None => v,
    }
}

/// The record after a sequence of pause (`true`) and resume (`false`) calls.
pub open spec fn sv_apply_pause_resume(v: SessionInfoV, ops: Seq<bool>) -> SessionInfoV
    decreases ops.len(),
{
    if ops.len() == 0 {
        v
    } else {
        sv_apply_pause_resume(if ops[0] { sv_pause(v) } else { sv_resume(v) }, ops.skip(1))
    }
}

/// Law: over any sequence of pause and resume calls, neither countdown track
/// ever changes; only the state tag does.
pub proof fn lemma_pause_resume_preserve_counters(v: SessionInfoV, ops: Seq<bool>)
    ensures
        sv_apply_pause_resume(v, ops).time_remaining_secs == v.time_remaining_secs,
        sv_apply_pause_resume(v, ops).rest_time_remaining_secs == v.rest_time_remaining_secs,
    decreases ops.len(),
{
    if ops.len() > 0 {
        lemma_pause_resume_preserve_counters(
            if ops[0] { sv_pause(v) } else { sv_resume(v) },
            ops.skip(1),
        );
    }
}

/// Law: pausing twice is the same as pausing once; the second call finds no
/// running state and is a no-op.
pub proof fn lemma_pause_idempotent(v: SessionInfoV)
    ensures
        sv_pause(sv_pause(v)) == sv_pause(v),
{
}

/// The engine: the session record it owns together with the settings it was
/// started under. The caller serializes access (one mutation at a time).
pub struct Timer {
    pub session_info: SessionInfo,
    pub config: Config,
}

impl Timer {
    pub open spec fn wf(&self) -> bool {
        &&& self.config.wf()
        &&& self.session_info.wf()
    }

    pub fn new(session_info: SessionInfo, config: Config) -> (r: Timer)
        ensures
            r.session_info@ == session_info@,
            r.config == config,
    {
        Timer { session_info, config }
    }

    /// Starts (or resumes at its remaining time) the work track: the state
    /// becomes `Working`, the focus track becomes active, and a drained work
    /// counter is refilled from the configured duration.
    pub fn start_work(&mut self)
        requires
            old(self).wf(),
        ensures
            final(self).wf(),
            final(self).config == old(self).config,
            final(self).session_info@ == (SessionInfoV {
                current_state: TimerState::Working,
                is_focus_mode: true,
                time_remaining_secs: if old(self).session_info@.time_remaining_secs == 0 {
                    old(self).config.spec_work_secs()
                } else {
                    old(self).session_info@.time_remaining_secs
                },
                last_updated: final(self).session_info@.last_updated,
                ..old(self).session_info@
            }),
    {
        self.session_info.current_state = TimerState::Working;
        self.session_info.is_focus_mode = true;
        if self.session_info.time_remaining_secs == 0 {
            self.session_info.time_remaining_secs = self.config.work_duration_secs();
        }
        self.session_info.last_updated = sys::now_ts();
    }

    /// Starts the short-break track: the state becomes `ShortBreak`, the rest
    /// track becomes active, and a drained rest counter is refilled from the
    /// configured short-break duration.
    pub fn start_short_break(&mut self)
        requires
            old(self).wf(),
        ensures
            final(self).wf(),
            final(self).config == old(self).config,
            final(self).session_info@ == (SessionInfoV {
                current_state: TimerState::ShortBreak,
                is_focus_mode: false,
                rest_time_remaining_secs: if old(self).session_info@.rest_time_remaining_secs == 0 {
                    old(self).config.spec_short_break_secs()
                } else {
                    old(self).session_info@.rest_time_remaining_secs
                },
                last_updated: final(self).session_info@.last_updated,
                ..old(self).session_info@
            }),
    {
        self.session_info.current_state = TimerState::ShortBreak;
        self.session_info.is_focus_mode = false;
        if self.session_info.rest_time_remaining_secs == 0 {
            self.session_info.rest_time_remaining_secs = self.config.short_break_duration_secs();
        }
        self.session_info.last_updated = sys::now_ts();
    }

    /// Starts the long-break track: the state becomes `LongBreak` and the
    /// rest counter is set to the configured long-break duration.
    pub fn start_long_break(&mut self)
        requires
            old(self).wf(),
        ensures
            final(self).wf(),
            final(self).config == old(self).config,
            final(self).session_info@ == (SessionInfoV {
                current_state: TimerState::LongBreak,
                rest_time_remaining_secs: old(self).config.spec_long_break_secs(),
                last_updated: final(self).session_info@.last_updated,
                ..old(self).session_info@
            }),
    {
        self.session_info.current_state = TimerState::LongBreak;
        self.session_info.rest_time_remaining_secs = self.config.long_break_duration_secs();
        self.session_info.last_updated = sys::now_ts();
    }

    /// Moves a running state to its paused counterpart; a no-op, not an
    /// error, in any other state. Neither countdown track changes.
    pub fn pause(&mut self)
        requires
            old(self).wf(),
        ensures
            final(self).wf(),
            final(self).config == old(self).config,
            final(self).session_info@ == (SessionInfoV {
                last_updated: final(self).session_info@.last_updated,
                ..sv_pause(old(self).session_info@)
            }),
            old(self).session_info@.current_state.spec_pause() is None
                ==> final(self).session_info@.last_updated
                    == old(self).session_info@.last_updated,
    {
        if let Some(paused_state) = self.session_info.current_state.pause() {
            self.session_info.current_state = paused_state;
            self.session_info.last_updated = sys::now_ts();
        }
    }

    /// Moves a paused state back to its running counterpart; a no-op in any
    /// other state. Neither countdown track changes.
    pub fn resume(&mut self)
        requires
            old(self).wf(),
        ensures
            final(self).wf(),
            final(self).config == old(self).config,
            final(self).session_info@ == (SessionInfoV {
                last_updated: final(self).session_info@.last_updated,
                ..sv_resume(old(self).session_info@)
            }),
            old(self).session_info@.current_state.spec_resume() is None
                ==> final(self).session_info@.last_updated
                    == old(self).session_info@.last_updated,
    {
        if let Some(resumed_state) = self.session_info.current_state.resume() {
            self.session_info.current_state = resumed_state;
            self.session_info.last_updated = sys::now_ts();
        }
    }

    /// Refills the counter of the currently active track (the work counter
    /// while on the work track or idle, the rest counter otherwise) to its
    /// configured full duration and forces the state to `Idle`, preserving
    /// the active-mode flag.
    pub fn reset(&mut self)
        requires
            old(self).wf(),
        ensures
            final(self).wf(),
            final(self).config == old(self).config,
            final(self).session_info@ == (SessionInfoV {
                current_state: TimerState::Idle,
                time_remaining_secs: if old(self).session_info@.current_state.spec_is_work()
                    || old(self).session_info@.current_state == TimerState::Idle {
                    old(self).config.spec_work_secs()
                } else {
                    old(self).session_info@.time_remaining_secs
                },
                rest_time_remaining_secs: match old(self).session_info@.current_state {
                    TimerState::ShortBreak | TimerState::BreakPaused
                        => old(self).config.spec_short_break_secs(),
                    TimerState::LongBreak | TimerState::LongBreakPaused
                        => old(self).config.spec_long_break_secs(),
                    _ => old(self).session_info@.rest_time_remaining_secs,
                },
                last_updated: final(self).session_info@.last_updated,
                ..old(self).session_info@
            }),
    {
        match self.session_info.current_state {
            TimerState::Idle | TimerState::Working | TimerState::WorkPaused => {
                self.session_info.time_remaining_secs = self.config.work_duration_secs();
            },
            TimerState::ShortBreak | TimerState::BreakPaused => {
                self.session_info.rest_time_remaining_secs = self.config.short_break_duration_secs();
            },
            TimerState::LongBreak | TimerState::LongBreakPaused => {
                self.session_info.rest_time_remaining_secs = self.config.long_break_duration_secs();
            },
        }
        self.session_info.current_state = TimerState::Idle;
        self.session_info.last_updated = sys::now_ts();
    }

    /// The cycle advance. Leaving the work track counts the session and moves
    /// to the long break when the cycle is complete (resetting the position
    /// to 1), else to the short break (advancing the position). Leaving a
    /// break, or idle, starts a fresh full work session.
    pub fn skip_to_next(&mut self)
        requires
            old(self).wf(),
            old(self).session_info@.current_state.spec_is_work()
                ==> old(self).session_info@.completed_sessions < u32::MAX,
        ensures
            final(self).wf(),
            final(self).config == old(self).config,
            ({
                let v = old(self).session_info@;
                let w = final(self).session_info@;
                let c = old(self).config;
                match v.current_state {
                    TimerState::Working | TimerState::WorkPaused => {
                        if v.current_session >= c.sessions_until_long_break {
                            w == (SessionInfoV {
                                current_state: TimerState::LongBreak,
                                rest_time_remaining_secs: c.spec_long_break_secs(),
                                current_session: 1u32,
                                completed_sessions: (v.completed_sessions + 1) as u32,
                                last_updated: w.last_updated,
                                ..v
                            })
                        } else {
                            w == (SessionInfoV {
                                current_state: TimerState::ShortBreak,
                                rest_time_remaining_secs: c.spec_short_break_secs(),
                                current_session: (v.current_session + 1) as u32,
                                completed_sessions: (v.completed_sessions + 1) as u32,
                                last_updated: w.last_updated,
                                ..v
                            })
                        }
                    },
                    TimerState::Idle => w == (SessionInfoV {
                        current_state: TimerState::Working,
                        time_remaining_secs: c.spec_work_secs(),
                        current_session: 1u32,
                        last_updated: w.last_updated,
                        ..v
                    }),
                    _ => w == (SessionInfoV {
                        current_state: TimerState::Working,
                        time_remaining_secs: c.spec_work_secs(),
                        last_updated: w.last_updated,
                        ..v
                    }),
                }
            }),
    {
        match self.session_info.current_state {
            TimerState::Working | TimerState::WorkPaused => {
                self.session_info.completed_sessions = self.session_info.completed_sessions + 1;
                if self.session_info.current_session >= self.config.sessions_until_long_break {
                    self.session_info.current_state = TimerState::LongBreak;
                    self.session_info.rest_time_remaining_secs = self.config.long_break_duration_secs();
                    self.session_info.current_session = 1;
                } else {
                    self.session_info.current_state = TimerState::ShortBreak;
                    self.session_info.rest_time_remaining_secs = self.config.short_break_duration_secs();
                    self.session_info.current_session = self.session_info.current_session + 1;
                }
            },
            TimerState::ShortBreak | TimerState::BreakPaused
            | TimerState::LongBreak | TimerState::LongBreakPaused => {
                self.session_info.current_state = TimerState::Working;
                self.session_info.time_remaining_secs = self.config.work_duration_secs();
            },
            TimerState::Idle => {
                self.session_info.current_state = TimerState::Working;
                self.session_info.time_remaining_secs = self.config.work_duration_secs();
                self.session_info.current_session = 1;
            },
        }
        self.session_info.last_updated = sys::now_ts();
    }

    /// The primary affordance: start the active track's session while idle,
    /// pause while running, resume while paused.
    pub fn toggle(&mut self)
        requires
            old(self).wf(),
        ensures
            final(self).wf(),
            final(self).config == old(self).config,
            ({
                let v = old(self).session_info@;
                let w = final(self).session_info@;
                let c = old(self).config;
                if v.current_state == TimerState::Idle {
                    if v.is_focus_mode {
                        w == (SessionInfoV {
                            current_state: TimerState::Working,
                            is_focus_mode: true,
                            time_remaining_secs: if v.time_remaining_secs == 0 {
                                c.spec_work_secs()
                            } else {
                                v.time_remaining_secs
                            },
                            last_updated: w.last_updated,
                            ..v
                        })
                    } else {
                        w == (SessionInfoV {
                            current_state: TimerState::ShortBreak,
                            is_focus_mode: false,
                            rest_time_remaining_secs: if v.rest_time_remaining_secs == 0 {
                                c.spec_short_break_secs()
                            } else {
                                v.rest_time_remaining_secs
                            },
                            last_updated: w.last_updated,
                            ..v
                        })
                    }
                } else if v.current_state.spec_is_running() {
                    w == (SessionInfoV {
                        last_updated: w.last_updated,
                        ..sv_pause(v)
                    })
                } else {
                    w == (SessionInfoV {
                        last_updated: w.last_updated,
                        ..sv_resume(v)
                    })
                }
            }),
    {
        match self.session_info.current_state {
            TimerState::Idle => {
                if self.session_info.is_focus_mode {
                    self.start_work();
                } else {
                    self.start_short_break();
                }
            },
            TimerState::Working | TimerState::ShortBreak | TimerState::LongBreak => {
                self.pause();
            },
            TimerState::WorkPaused | TimerState::BreakPaused | TimerState::LongBreakPaused => {
                self.resume();
            },
        }
    }

    /// One iteration of the periodic countdown. While running, the active
    /// track's counter (the work counter in a work state, the rest counter
    /// otherwise) goes down by exactly one, floored at zero; nothing else
    /// moves. Returns whether the timer was running and whether this very
    /// decrement drained the counter, which obliges the caller to run the
    /// completion protocol once.
    pub fn tick(&mut self) -> (r: (bool, bool))
        requires
            old(self).wf(),
        ensures
            final(self).wf(),
            final(self).config == old(self).config,
            r.0 == old(self).session_info@.current_state.spec_is_running(),
            final(self).session_info@.current_state == old(self).session_info@.current_state,
            final(self).session_info@.is_focus_mode == old(self).session_info@.is_focus_mode,
            final(self).session_info@.current_session == old(self).session_info@.current_session,
            final(self).session_info@.completed_sessions == old(self).session_info@.completed_sessions,
            final(self).session_info@.current_id == old(self).session_info@.current_id,
            final(self).session_info@.current_label == old(self).session_info@.current_label,
            final(self).session_info@.history == old(self).session_info@.history,
            final(self).session_info@.history_index == old(self).session_info@.history_index,
            ({
                let v = old(self).session_info@;
                let w = final(self).session_info@;
                if v.current_state.spec_is_running() && v.current_state.spec_is_work() {
                    &&& w.rest_time_remaining_secs == v.rest_time_remaining_secs
                    &&& if v.time_remaining_secs > 0 {
                        &&& w.time_remaining_secs == v.time_remaining_secs - 1
                        &&& r.1 == (v.time_remaining_secs == 1)
                    } else {
                        &&& w.time_remaining_secs == v.time_remaining_secs
                        &&& w.last_updated == v.last_updated
                        &&& r.1 == false
                    }
                } else if v.current_state.spec_is_running() {
                    &&& w.time_remaining_secs == v.time_remaining_secs
                    &&& if v.rest_time_remaining_secs > 0 {
                        &&& w.rest_time_remaining_secs == v.rest_time_remaining_secs - 1
                        &&& r.1 == (v.rest_time_remaining_secs == 1)
                    } else {
                        &&& w.rest_time_remaining_secs == v.rest_time_remaining_secs
                        &&& w.last_updated == v.last_updated
                        &&& r.1 == false
                    }
                } else {
                    &&& w.time_remaining_secs == v.time_remaining_secs
                    &&& w.rest_time_remaining_secs == v.rest_time_remaining_secs
                    &&& w.last_updated == v.last_updated
                    &&& r.1 == false
                }
            }),
    {
        let is_running = self.session_info.current_state.is_running();
        let mut just_completed = false;
        if is_running {
            if self.session_info.current_state.is_work() {
                if self.session_info.time_remaining_secs > 0 {
                    self.session_info.time_remaining_secs = self.session_info.time_remaining_secs - 1;
                    self.session_info.last_updated = sys::now_ts();
                    just_completed = self.session_info.time_remaining_secs == 0;
                }
            } else {
                if self.session_info.rest_time_remaining_secs > 0 {
                    self.session_info.rest_time_remaining_secs = self.session_info.rest_time_remaining_secs - 1;
                    self.session_info.last_updated = sys::now_ts();
                    just_completed = self.session_info.rest_time_remaining_secs == 0;
                }
            }
        }
        (is_running, just_completed)
    }

    /// The completion protocol, run once when a tick has just drained the
    /// active counter: the state falls back to `Idle`, and the notification
    /// kind owed for the state being exited is returned — only when
    /// notifications are enabled, and only for a running state.
    pub fn complete(&mut self) -> (r: Option<NotificationKind>)
        requires
            old(self).wf(),
        ensures
            final(self).wf(),
            final(self).config == old(self).config,
            r == (if old(self).config.enable_notifications {
                match old(self).session_info@.current_state {
                    TimerState::Working => Some(NotificationKind::WorkComplete),
                    TimerState::ShortBreak => Some(NotificationKind::BreakComplete),
                    TimerState::LongBreak => Some(NotificationKind::LongBreakComplete),
                    _ => None::<NotificationKind>,
                }
            } else {
                None::<NotificationKind>
            }),
            final(self).session_info@ == (SessionInfoV {
                current_state: TimerState::Idle,
                last_updated: final(self).session_info@.last_updated,
                ..old(self).session_info@
            }),
    {
        let kind = if self.config.enable_notifications {
            match self.session_info.current_state {
                TimerState::Working => Some(NotificationKind::WorkComplete),
                TimerState::ShortBreak => Some(NotificationKind::BreakComplete),
                TimerState::LongBreak => Some(NotificationKind::LongBreakComplete),
                _ => None,
            }
        } else {
            None
        };
        self.session_info.current_state = TimerState::Idle;
        self.session_info.last_updated = sys::now_ts();
        kind
    }

    /// The new-timer command: back to idle with a drained work counter, a
    /// fresh identifier, the given label, and the live view restored.
    pub fn new_timer(&mut self, label: String)
        requires
            old(self).wf(),
        ensures
            final(self).wf(),
            final(self).config == old(self).config,
            final(self).session_info@ == (SessionInfoV {
                current_state: TimerState::Idle,
                time_remaining_secs: 0u32,
                current_id: final(self).session_info@.current_id,
                current_label: label@,
                history_index: None,
                last_updated: final(self).session_info@.last_updated,
                ..old(self).session_info@
            }),
            final(self).session_info@.current_id.len() == 36,
    {
        self.session_info.current_state = TimerState::Idle;
        self.session_info.time_remaining_secs = 0;
        self.session_info.current_id = sys::fresh_id();
        self.session_info.current_label = label;
        self.session_info.exit_history();
        self.session_info.last_updated = sys::now_ts();
    }

    /// The manual skip command: while running, the current session is first
    /// archived into history under its identifier, label, active counter and
    /// state name (regenerating the identifier); then the cycle advances as
    /// `skip_to_next` does; then the browse cursor moves one entry towards
    /// older entries, landing on the just-archived entry when the live view
    /// was shown.
    pub fn skip(&mut self)
        requires
            old(self).wf(),
            old(self).session_info@.current_state.spec_is_work()
                ==> old(self).session_info@.completed_sessions < u32::MAX,
        ensures
            final(self).wf(),
            final(self).config == old(self).config,
            final(self).session_info@.is_focus_mode == old(self).session_info@.is_focus_mode,
            final(self).session_info@.current_label == old(self).session_info@.current_label,
            ({
                let v = old(self).session_info@;
                let w = final(self).session_info@;
                if v.current_state.spec_is_running() {
                    let t = w.history.last();
                    &&& t.id == v.current_id
                    &&& t.label == v.current_label
                    &&& t.duration_secs == if v.current_state.spec_is_work() {
                        v.time_remaining_secs
                    } else {
                        v.rest_time_remaining_secs
                    }
                    &&& t.session_type == v.current_state.spec_display_name()
                    &&& w.history == if v.history.len() < HISTORY_LIMIT {
                        v.history.push(t)
                    } else {
                        v.history.skip(1).push(t)
                    }
                    &&& w.current_id.len() == 36
                } else {
                    &&& w.history == v.history
                    &&& w.current_id == v.current_id
                }
            }),
            ({
                let v = old(self).session_info@;
                let w = final(self).session_info@;
                let c = old(self).config;
                match v.current_state {
                    TimerState::Working | TimerState::WorkPaused => {
                        &&& w.completed_sessions == v.completed_sessions + 1
                        &&& w.time_remaining_secs == v.time_remaining_secs
                        &&& if v.current_session >= c.sessions_until_long_break {
                            &&& w.current_state == TimerState::LongBreak
                            &&& w.rest_time_remaining_secs == c.spec_long_break_secs()
                            &&& w.current_session == 1
                        } else {
                            &&& w.current_state == TimerState::ShortBreak
                            &&& w.rest_time_remaining_secs == c.spec_short_break_secs()
                            &&& w.current_session == v.current_session + 1
                        }
                    },
                    TimerState::Idle => {
                        &&& w.current_state == TimerState::Working
                        &&& w.time_remaining_secs == c.spec_work_secs()
                        &&& w.current_session == 1
                        &&& w.completed_sessions == v.completed_sessions
                        &&& w.rest_time_remaining_secs == v.rest_time_remaining_secs
                    },
                    _ => {
                        &&& w.current_state == TimerState::Working
                        &&& w.time_remaining_secs == c.spec_work_secs()
                        &&& w.current_session == v.current_session
                        &&& w.completed_sessions == v.completed_sessions
                        &&& w.rest_time_remaining_secs == v.rest_time_remaining_secs
                    },
                }
            }),
            final(self).session_info@.history_index == (if final(self).session_info@.history.len() == 0 {
                old(self).session_info@.history_index
            } else {
                Some(match old(self).session_info@.history_index {
                    None => (final(self).session_info@.history.len() - 1) as usize,
                    Some(i) => if i == 0 {
                        (final(self).session_info@.history.len() - 1) as usize
                    } else {
                        (i - 1) as usize
                    },
                })
            }),
    {
        if self.session_info.current_state.is_running() {
            let session_type = self.session_info.current_state.display_name().to_owned();
            let elapsed = if self.session_info.current_state.is_work() {
                self.session_info.time_remaining_secs
            } else {
                self.session_info.rest_time_remaining_secs
            };
            let id = self.session_info.current_id.clone();
            let label = self.session_info.current_label.clone();
            self.session_info.add_to_history(id, label, elapsed, session_type);
        }
        self.skip_to_next();
        self.session_info.navigate_history_prev();
    }

    /// The switch-to-focus command: a no-op while the focus track is already
    /// active; otherwise a drained work counter is refilled, the focus track
    /// becomes active, and any countdown in progress is stopped at `Idle`.
    pub fn switch_to_focus(&mut self)
        requires
            old(self).wf(),
        ensures
            final(self).wf(),
            final(self).config == old(self).config,
            old(self).session_info@.is_focus_mode
                ==> final(self).session_info@ == old(self).session_info@,
            !old(self).session_info@.is_focus_mode
                ==> final(self).session_info@ == (SessionInfoV {
                    current_state: TimerState::Idle,
                    is_focus_mode: true,
                    time_remaining_secs: if old(self).session_info@.time_remaining_secs == 0 {
                        old(self).config.spec_work_secs()
                    } else {
                        old(self).session_info@.time_remaining_secs
                    },
                    last_updated: final(self).session_info@.last_updated,
                    ..old(self).session_info@
                }),
    {
        if self.session_info.is_focus_mode {
            return;
        }
        if self.session_info.time_remaining_secs == 0 {
            self.session_info.time_remaining_secs = self.config.work_duration_secs();
        }
        self.session_info.is_focus_mode = true;
        self.session_info.current_state = TimerState::Idle;
        self.session_info.last_updated = sys::now_ts();
    }

    /// The switch-to-rest command: a no-op while the rest track is already
    /// active; otherwise a drained rest counter is refilled from the
    /// short-break duration, the rest track becomes active, and any countdown
    /// in progress is stopped at `Idle`.
    pub fn switch_to_rest(&mut self)
        requires
            old(self).wf(),
        ensures
            final(self).wf(),
            final(self).config == old(self).config,
            !old(self).session_info@.is_focus_mode
                ==> final(self).session_info@ == old(self).session_info@,
            old(self).session_info@.is_focus_mode
                ==> final(self).session_info@ == (SessionInfoV {
                    current_state: TimerState::Idle,
                    is_focus_mode: false,
                    rest_time_remaining_secs: if old(self).session_info@.rest_time_remaining_secs == 0 {
                        old(self).config.spec_short_break_secs()
                    } else {
                        old(self).session_info@.rest_time_remaining_secs
                    },
                    last_updated: final(self).session_info@.last_updated,
                    ..old(self).session_info@
                }),
    {
        if !self.session_info.is_focus_mode {
            return;
        }
        if self.session_info.rest_time_remaining_secs == 0 {
            self.session_info.rest_time_remaining_secs = self.config.short_break_duration_secs();
        }
        self.session_info.is_focus_mode = false;
        self.session_info.current_state = TimerState::Idle;
        self.session_info.last_updated = sys::now_ts();
    }

    /// The label-commit command: writes the edited label into the record.
    pub fn done_label(&mut self, label: String)
        requires
            old(self).wf(),
        ensures
            final(self).wf(),
            final(self).config == old(self).config,
            final(self).session_info@ == (SessionInfoV {
                current_label: label@,
                ..old(self).session_info@
            }),
    {
        self.session_info.current_label = label;
    }
}

} // verus!
