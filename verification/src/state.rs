//! The timer state tag, the shared session record, and the bounded history.

use vstd::prelude::*;

use crate::sys;
use crate::text;
use crate::text::{spec_digits, spec_pad2};

verus! {

/// The most recent entries a session record keeps; the oldest entry is
/// evicted when an append would exceed it.
pub const HISTORY_LIMIT: usize = 50;

/// The closed set of states the timer can be in. A running state has a paused
/// counterpart; `Idle` is the rest position the timer returns to when an
/// interval completes or is reset.
#[derive(Debug, Clone, Copy, PartialEq, Eq, Structural)]
pub enum TimerState {
    Idle,
    Working,
    WorkPaused,
    ShortBreak,
    BreakPaused,
    LongBreak,
    LongBreakPaused,
}

impl TimerState {
    /// True of the three paused variants.
    pub open spec fn spec_is_paused(&self) -> bool {
        match self {
            TimerState::WorkPaused | TimerState::BreakPaused | TimerState::LongBreakPaused => true,
            _ => false,
        }
    }

    /// True of the three running variants.
    pub open spec fn spec_is_running(&self) -> bool {
        match self {
            TimerState::Working | TimerState::ShortBreak | TimerState::LongBreak => true,
            _ => false,
        }
    }

    /// True of the work track, running or paused.
    pub open spec fn spec_is_work(&self) -> bool {
        match self {
            TimerState::Working | TimerState::WorkPaused => true,
            _ => false,
        }
    }

    /// True of the break states, running or paused.
    pub open spec fn spec_is_break(&self) -> bool {
        match self {
            TimerState::ShortBreak
            | TimerState::BreakPaused
            | TimerState::LongBreak
            | TimerState::LongBreakPaused => true,
            _ => false,
        }
    }

    /// Each running variant maps to its paused counterpart; everything else
    /// has no paused form.
    pub open spec fn spec_pause(&self) -> Option<TimerState> {
        match self {
            TimerState::Working => Some(TimerState::WorkPaused),
            TimerState::ShortBreak => Some(TimerState::BreakPaused),
            TimerState::LongBreak => Some(TimerState::LongBreakPaused),
            _ => None,
        }
    }

    /// The inverse of `spec_pause`: each paused variant maps back to its
    /// running counterpart.
    pub open spec fn spec_resume(&self) -> Option<TimerState> {
        match self {
            TimerState::WorkPaused => Some(TimerState::Working),
            TimerState::BreakPaused => Some(TimerState::ShortBreak),
            TimerState::LongBreakPaused => Some(TimerState::LongBreak),
            _ => None,
        }
    }

    #[verifier::when_used_as_spec(spec_is_paused)]
    pub fn is_paused(&self) -> (r: bool)
        ensures
            r == self.spec_is_paused(),
    {
        matches!(self, TimerState::WorkPaused | TimerState::BreakPaused | TimerState::LongBreakPaused)
    }

    #[verifier::when_used_as_spec(spec_is_running)]
    pub fn is_running(&self) -> (r: bool)
        ensures
            r == self.spec_is_running(),
    {
        matches!(self, TimerState::Working | TimerState::ShortBreak | TimerState::LongBreak)
    }

    #[verifier::when_used_as_spec(spec_is_work)]
    pub fn is_work(&self) -> (r: bool)
        ensures
            r == self.spec_is_work(),
    {
        matches!(self, TimerState::Working | TimerState::WorkPaused)
    }

    #[verifier::when_used_as_spec(spec_is_break)]
    pub fn is_break(&self) -> (r: bool)
        ensures
            r == self.spec_is_break(),
    {
        matches!(
            self,
            TimerState::ShortBreak
                | TimerState::BreakPaused
                | TimerState::LongBreak
                | TimerState::LongBreakPaused
        )
    }

    pub fn pause(&self) -> (r: Option<TimerState>)
        ensures
            r == self.spec_pause(),
    {
        match self {
            TimerState::Working => Some(TimerState::WorkPaused),
            TimerState::ShortBreak => Some(TimerState::BreakPaused),
            TimerState::LongBreak => Some(TimerState::LongBreakPaused),
            _ => None,
        }
    }

    pub fn resume(&self) -> (r: Option<TimerState>)
        ensures
            r == self.spec_resume(),
    {
        match self {
            TimerState::WorkPaused => Some(TimerState::Working),
            TimerState::BreakPaused => Some(TimerState::ShortBreak),
            TimerState::LongBreakPaused => Some(TimerState::LongBreak),
            _ => None,
        }
    }

    /// The label shown for each state.
    pub open spec fn spec_display_name(&self) -> Seq<char> {
        match self {
            TimerState::Idle => "Ready"@,
            TimerState::Working | TimerState::WorkPaused => "Work Session"@,
            TimerState::ShortBreak | TimerState::BreakPaused => "Short Break"@,
            TimerState::LongBreak | TimerState::LongBreakPaused => "Long Break"@,
        }
    }

    pub fn display_name(&self) -> (r: &'static str)
        ensures
            r@ == self.spec_display_name(),
    {
        match self {
            TimerState::Idle => "Ready",
            TimerState::Working | TimerState::WorkPaused => "Work Session",
            TimerState::ShortBreak | TimerState::BreakPaused => "Short Break",
            TimerState::LongBreak | TimerState::LongBreakPaused => "Long Break",
        }
    }

    /// The accent colour for each state, as a packed RGB value.
    pub fn color_hex(&self) -> (r: u32)
        ensures
            r == match self {
                TimerState::Idle => 0x6b7280u32,
                TimerState::Working => 0xef4444u32,
                TimerState::ShortBreak => 0x10b981u32,
                TimerState::LongBreak => 0x3b82f6u32,
                TimerState::WorkPaused | TimerState::BreakPaused | TimerState::LongBreakPaused
                    => 0x9ca3afu32,
            },
    {
        match self {
            TimerState::Idle => 0x6b7280,
            TimerState::Working => 0xef4444,
            TimerState::WorkPaused => 0x9ca3af,
            TimerState::ShortBreak => 0x10b981,
            TimerState::BreakPaused => 0x9ca3af,
            TimerState::LongBreak => 0x3b82f6,
            TimerState::LongBreakPaused => 0x9ca3af,
        }
    }
}

/// One archived session, immutable once created.
#[derive(Debug, Clone)]
pub struct CompletedTimer {
    pub id: String,
    pub label: String,
    pub duration_secs: u32,
    pub session_type: String,
    /// Completion time in whole seconds since the Unix epoch.
    pub completed_at: i64,
}

/// The mathematical value of a `CompletedTimer`.
#[verifier::ext_equal]
pub ghost struct CompletedTimerV {
    pub id: Seq<char>,
    pub label: Seq<char>,
    pub duration_secs: u32,
    pub session_type: Seq<char>,
    pub completed_at: i64,
}

impl View for CompletedTimer {
    type V = CompletedTimerV;

    open spec fn view(&self) -> CompletedTimerV {
        CompletedTimerV {
            id: self.id@,
            label: self.label@,
            duration_secs: self.duration_secs,
            session_type: self.session_type@,
            completed_at: self.completed_at,
        }
    }
}

/// The shared session record: the state tag, the two countdown tracks, the
/// cycle counters, the identity of the current session, and the bounded
/// history with its browse cursor.
#[derive(Debug, Clone)]
pub struct SessionInfo {
    pub current_state: TimerState,
    /// Focus-track countdown, in seconds.
    pub time_remaining_secs: u32,
    /// Rest-track countdown, in seconds; kept separately so that switching
    /// modes preserves each track's remaining time.
    pub rest_time_remaining_secs: u32,
    /// Which track is active for display and ticking.
    pub is_focus_mode: bool,
    pub current_session: u32,
    pub completed_sessions: u32,
    /// Last mutation time in whole seconds since the Unix epoch.
    pub last_updated: i64,
    pub current_id: String,
    pub current_label: String,
    pub history: Vec<CompletedTimer>,
    /// `None` means the live timer is shown; `Some(i)` means history entry
    /// `i` is being browsed.
    pub history_index: Option<usize>,
}

/// The mathematical value of a `SessionInfo`.
#[verifier::ext_equal]
pub ghost struct SessionInfoV {
    pub current_state: TimerState,
    pub time_remaining_secs: u32,
    pub rest_time_remaining_secs: u32,
    pub is_focus_mode: bool,
    pub current_session: u32,
    pub completed_sessions: u32,
    pub last_updated: i64,
    pub current_id: Seq<char>,
    pub current_label: Seq<char>,
    pub history: Seq<CompletedTimerV>,
    pub history_index: Option<usize>,
}

impl View for SessionInfo {
    type V = SessionInfoV;

    open spec fn view(&self) -> SessionInfoV {
        SessionInfoV {
            current_state: self.current_state,
            time_remaining_secs: self.time_remaining_secs,
            rest_time_remaining_secs: self.rest_time_remaining_secs,
            is_focus_mode: self.is_focus_mode,
            current_session: self.current_session,
            completed_sessions: self.completed_sessions,
            last_updated: self.last_updated,
            current_id: self.current_id@,
            current_label: self.current_label@,
            history: self.history@.map_values(|t: CompletedTimer| t@),
            history_index: self.history_index,
        }
    }
}

impl SessionInfoV {
    /// The record's invariant: the history is bounded, and the browse cursor,
    /// when set, points into it.
    pub open spec fn wf(&self) -> bool {
        &&& self.history.len() <= HISTORY_LIMIT
        &&& match self.history_index {
            Some(i) => (i as nat) < self.history.len(),
            None => true,
        }
    }
}

/// A freshly constructed record: idle, both tracks at zero, counters at their
/// starting values, empty label and history, live view, and a new identifier.
pub open spec fn spec_fresh(v: SessionInfoV) -> bool {
    &&& v.current_state == TimerState::Idle
    &&& v.time_remaining_secs == 0
    &&& v.rest_time_remaining_secs == 0
    &&& v.is_focus_mode == true
    &&& v.current_session == 1
    &&& v.completed_sessions == 0
    &&& v.current_id.len() == 36
    &&& v.current_label == Seq::<char>::empty()
    &&& v.history == Seq::<CompletedTimerV>::empty()
    &&& v.history_index is None
}

impl SessionInfo {
    pub open spec fn wf(&self) -> bool {
        self@.wf()
    }

    pub fn new() -> (r: SessionInfo)
        ensures
            spec_fresh(r@),
            r.wf(),
    {
        let r = SessionInfo {
            current_state: TimerState::Idle,
            time_remaining_secs: 0,
            rest_time_remaining_secs: 0,
            is_focus_mode: true,
            current_session: 1,
            completed_sessions: 0,
            last_updated: sys::now_ts(),
            current_id: sys::fresh_id(),
            current_label: String::new(),
            history: Vec::new(),
            history_index: None,
        };
        assert(r@.history =~= Seq::<CompletedTimerV>::empty());
        r
    }

    /// Appends an archived session stamped with the current time, evicts the
    /// oldest entry when the bound would be exceeded, and regenerates
    /// `current_id` for the next session.
    pub fn add_to_history(&mut self, id: String, label: String, duration_secs: u32, session_type: String)
        requires
            old(self).wf(),
        ensures
            final(self).wf(),
            ({
                let t = final(self)@.history.last();
                &&& t.id == id@
                &&& t.label == label@
                &&& t.duration_secs == duration_secs
                &&& t.session_type == session_type@
                &&& final(self)@.history == if old(self)@.history.len() < HISTORY_LIMIT {
                    old(self)@.history.push(t)
                } else {
                    old(self)@.history.skip(1).push(t)
                }
            }),
            final(self)@.current_id.len() == 36,
            final(self)@.current_state == old(self)@.current_state,
            final(self)@.time_remaining_secs == old(self)@.time_remaining_secs,
            final(self)@.rest_time_remaining_secs == old(self)@.rest_time_remaining_secs,
            final(self)@.is_focus_mode == old(self)@.is_focus_mode,
            final(self)@.current_session == old(self)@.current_session,
            final(self)@.completed_sessions == old(self)@.completed_sessions,
            final(self)@.last_updated == old(self)@.last_updated,
            final(self)@.current_label == old(self)@.current_label,
            final(self)@.history_index == old(self)@.history_index,
    {
        let ghost old_hist = self@.history;
        let t = CompletedTimer {
            id,
            label,
            duration_secs,
            session_type,
            completed_at: sys::now_ts(),
        };
        let ghost tv = t@;
        self.history.push(t);
        assert(self@.history =~= old_hist.push(tv));
        if self.history.len() > HISTORY_LIMIT {
            self.history.remove(0);
            assert(self@.history =~= old_hist.skip(1).push(tv));
        }
        self.current_id = sys::fresh_id();
    }

    /// True while a history entry, not the live timer, is shown.
    pub fn is_viewing_history(&self) -> (r: bool)
        ensures
            r == (self@.history_index is Some),
    {
        self.history_index.is_some()
    }

    /// The history entry under the browse cursor, if the cursor is set and in
    /// range.
    pub fn get_displayed_timer(&self) -> (r: Option<&CompletedTimer>)
        ensures
            match self@.history_index {
                Some(i) => if (i as nat) < self@.history.len() {
                    r matches Some(t) && t@ == self@.history[i as int]
                } else {
                    r is None
                },
                None => r is None,
            },
    {
        if let Some(index) = self.history_index {
            if index < self.history.len() {
                Some(&self.history[index])
            } else {
                None
            }
        } else {
            None
        }
    }

    /// Moves the cursor one entry towards older entries, treating `None` as
    /// just past the end, and wrapping from the first entry to the last.
    /// A no-op while the history is empty.
    pub fn navigate_history_prev(&mut self)
        requires
            old(self).wf(),
        ensures
            final(self).wf(),
            final(self)@ == (SessionInfoV {
                history_index: final(self)@.history_index,
                ..old(self)@
            }),
            final(self)@.history_index == (if old(self)@.history.len() == 0 {
                old(self)@.history_index
            } else {
                Some(match old(self)@.history_index {
                    None => (old(self)@.history.len() - 1) as usize,
                    Some(i) => if i == 0 {
                        (old(self)@.history.len() - 1) as usize
                    } else {
                        (i - 1) as usize
                    },
                })
            }),
    {
        if self.history.is_empty() {
            return;
        }
        self.history_index = Some(
            match self.history_index {
                None => self.history.len() - 1,
                Some(i) => if i == 0 {
                    self.history.len() - 1
                } else {
                    i - 1
                },
            },
        );
    }

    /// Moves the cursor one entry towards newer entries, treating `None` as
    /// just before the start, and wrapping from the last entry to the first.
    /// A no-op while the history is empty.
    pub fn navigate_history_next(&mut self)
        requires
            old(self).wf(),
        ensures
            final(self).wf(),
            final(self)@ == (SessionInfoV {
                history_index: final(self)@.history_index,
                ..old(self)@
            }),
            final(self)@.history_index == (if old(self)@.history.len() == 0 {
                old(self)@.history_index
            } else {
                Some(match old(self)@.history_index {
                    None => 0usize,
                    Some(i) => if (i as nat) >= old(self)@.history.len() - 1 {
                        0usize
                    } else {
                        (i + 1) as usize
                    },
                })
            }),
    {
        if self.history.is_empty() {
            return;
        }
        self.history_index = Some(
            match self.history_index {
                None => 0,
                Some(i) => if i >= self.history.len() - 1 {
                    0
                } else {
                    i + 1
                },
            },
        );
    }

    /// Returns to the live view.
    pub fn exit_history(&mut self)
        ensures
            final(self)@ == (SessionInfoV { history_index: None, ..old(self)@ }),
    {
        self.history_index = None;
    }

    /// The heading shown for the current state: the session position within
    /// the cycle while on the work track or idle, else the break name.
    pub fn session_label(&self, sessions_until_long_break: u32) -> (r: String)
        ensures
            r@ == match self@.current_state {
                TimerState::ShortBreak | TimerState::BreakPaused => "Short Break"@,
                TimerState::LongBreak | TimerState::LongBreakPaused => "Long Break"@,
                _ => "Session "@ + spec_digits(self@.current_session as nat)
                    + seq!['/'] + spec_digits(sessions_until_long_break as nat),
            },
    {
        match self.current_state {
            TimerState::ShortBreak | TimerState::BreakPaused => "Short Break".to_owned(),
            TimerState::LongBreak | TimerState::LongBreakPaused => "Long Break".to_owned(),
            _ => {
                let mut out = text::chars_of_str("Session ");
                text::push_digits(&mut out, self.current_session as u64);
                out.push('/');
                text::push_digits(&mut out, sessions_until_long_break as u64);
                assert(out@ =~= "Session "@ + spec_digits(self@.current_session as nat)
                    + seq!['/'] + spec_digits(sessions_until_long_break as nat));
                text::string_from_chars(&out)
            },
        }
    }

    /// The focus-track countdown rendered as zero-padded minutes and seconds.
    pub fn format_time(&self) -> (r: String)
        ensures
            r@ == spec_pad2((self@.time_remaining_secs / 60) as nat)
                + seq![':'] + spec_pad2((self@.time_remaining_secs % 60) as nat),
    {
        let minutes = self.time_remaining_secs / 60;
        let seconds = self.time_remaining_secs % 60;
        let mut out: Vec<char> = Vec::new();
        text::push_pad2(&mut out, minutes as u64);
        out.push(':');
        text::push_pad2(&mut out, seconds as u64);
        assert(out@ =~= spec_pad2((self@.time_remaining_secs / 60) as nat)
            + seq![':'] + spec_pad2((self@.time_remaining_secs % 60) as nat));
        text::string_from_chars(&out)
    }
}

impl Default for SessionInfo {
    fn default() -> (r: SessionInfo)
        ensures
            spec_fresh(r@),
            r.wf(),
    {
        SessionInfo::new()
    }
}

} // verus!
