//! The snapshot format: the serialization of a session record to one string
//! and back, with the round trip proved.
//!
//! Counters are decimal digits closed by `';'`; strings are length-prefixed
//! and copied verbatim; timestamps are biased into an unsigned range; the
//! state tag and the browse cursor are single-character tags.

use vstd::prelude::*;

use crate::state::{CompletedTimer, CompletedTimerV, SessionInfo, SessionInfoV, TimerState, HISTORY_LIMIT};
use crate::text;
use crate::text::{spec_digit_char, spec_digits};

verus! {

/// The bias that maps an `i64` timestamp into `0 ..= u64::MAX`.
pub const TS_BIAS: u64 = 0x8000_0000_0000_0000;

// ---------------------------------------------------------------------------
// The encoded form, one spec function per field shape.
// ---------------------------------------------------------------------------

pub open spec fn spec_enc_num(n: nat) -> Seq<char> {
    spec_digits(n) + seq![';']
}

pub open spec fn spec_enc_bool(b: bool) -> Seq<char> {
    if b {
        seq!['t']
    } else {
        seq!['f']
    }
}

pub open spec fn spec_enc_i64(t: i64) -> Seq<char> {
    spec_enc_num((t + TS_BIAS) as nat)
}

pub open spec fn spec_enc_str(s: Seq<char>) -> Seq<char> {
    spec_enc_num(s.len()) + s
}

pub open spec fn spec_enc_state(st: TimerState) -> Seq<char> {
    match st {
        TimerState::Idle => seq!['I'],
        TimerState::Working => seq!['W'],
        TimerState::WorkPaused => seq!['w'],
        TimerState::ShortBreak => seq!['B'],
        TimerState::BreakPaused => seq!['b'],
        TimerState::LongBreak => seq!['L'],
        TimerState::LongBreakPaused => seq!['l'],
    }
}

pub open spec fn spec_enc_opt_index(x: Option<usize>) -> Seq<char> {
    match x {
        None => seq!['n'],
        Some(i) => seq!['i'] + spec_enc_num(i as nat),
    }
}

pub open spec fn spec_enc_timer(t: CompletedTimerV) -> Seq<char> {
    spec_enc_str(t.id) + spec_enc_str(t.label) + spec_enc_num(t.duration_secs as nat)
        + spec_enc_str(t.session_type) + spec_enc_i64(t.completed_at)
}

pub open spec fn spec_enc_history(h: Seq<CompletedTimerV>) -> Seq<char>
    decreases h.len(),
{
    if h.len() == 0 {
        Seq::<char>::empty()
    } else {
        spec_enc_timer(h[0]) + spec_enc_history(h.skip(1))
    }
}

pub open spec fn spec_enc_session(v: SessionInfoV) -> Seq<char> {
    spec_enc_state(v.current_state) + spec_enc_num(v.time_remaining_secs as nat)
        + spec_enc_num(v.rest_time_remaining_secs as nat) + spec_enc_bool(v.is_focus_mode)
        + spec_enc_num(v.current_session as nat) + spec_enc_num(v.completed_sessions as nat)
        + spec_enc_i64(v.last_updated) + spec_enc_str(v.current_id)
        + spec_enc_str(v.current_label) + spec_enc_num(v.history.len())
        + spec_enc_history(v.history) + spec_enc_opt_index(v.history_index)
}

// ---------------------------------------------------------------------------
// The parse of each shape: the value read and the unread rest, or nothing.
// ---------------------------------------------------------------------------

pub open spec fn spec_digit_val(c: char) -> Option<nat> {
    if c == '0' {
        Some(0nat)
    } else if c == '1' {
        Some(1nat)
    } else if c == '2' {
        Some(2nat)
    } else if c == '3' {
        Some(3nat)
    } else if c == '4' {
        Some(4nat)
    } else if c == '5' {
        Some(5nat)
    } else if c == '6' {
        Some(6nat)
    } else if c == '7' {
        Some(7nat)
    } else if c == '8' {
        Some(8nat)
    } else if c == '9' {
        Some(9nat)
    } else {
        None
    }
}

pub open spec fn spec_parse_num_rec(s: Seq<char>, acc: nat) -> Option<(nat, Seq<char>)>
    decreases s.len(),
{
    if s.len() == 0 {
        None
    } else if s[0] == ';' {
        Some((acc, s.skip(1)))
    } else {
        match spec_digit_val(s[0]) {
            Some(d) => if acc * 10 + d <= u64::MAX {
                spec_parse_num_rec(s.skip(1), acc * 10 + d)
            } else {
                None
            },
            None => None,
        }
    }
}

pub open spec fn spec_parse_num(s: Seq<char>) -> Option<(nat, Seq<char>)> {
    spec_parse_num_rec(s, 0)
}

pub open spec fn spec_parse_u32(s: Seq<char>) -> Option<(u32, Seq<char>)> {
    match spec_parse_num(s) {
        Some((n, r)) => if n <= u32::MAX {
            Some((n as u32, r))
        } else {
            None
        },
        None => None,
    }
}

pub open spec fn spec_parse_i64(s: Seq<char>) -> Option<(i64, Seq<char>)> {
    match spec_parse_num(s) {
        Some((n, r)) => Some(((n - TS_BIAS) as i64, r)),
        None => None,
    }
}

pub open spec fn spec_parse_bool(s: Seq<char>) -> Option<(bool, Seq<char>)> {
    if s.len() == 0 {
        None
    } else if s[0] == 't' {
        Some((true, s.skip(1)))
    } else if s[0] == 'f' {
        Some((false, s.skip(1)))
    } else {
        None
    }
}

pub open spec fn spec_parse_state(s: Seq<char>) -> Option<(TimerState, Seq<char>)> {
    if s.len() == 0 {
        None
    } else if s[0] == 'I' {
        Some((TimerState::Idle, s.skip(1)))
    } else if s[0] == 'W' {
        Some((TimerState::Working, s.skip(1)))
    } else if s[0] == 'w' {
        Some((TimerState::WorkPaused, s.skip(1)))
    } else if s[0] == 'B' {
        Some((TimerState::ShortBreak, s.skip(1)))
    } else if s[0] == 'b' {
        Some((TimerState::BreakPaused, s.skip(1)))
    } else if s[0] == 'L' {
        Some((TimerState::LongBreak, s.skip(1)))
    } else if s[0] == 'l' {
        Some((TimerState::LongBreakPaused, s.skip(1)))
    } else {
        None
    }
}

pub open spec fn spec_parse_str(s: Seq<char>) -> Option<(Seq<char>, Seq<char>)> {
    match spec_parse_num(s) {
        Some((n, r)) => if n <= r.len() {
            Some((r.take(n as int), r.skip(n as int)))
        } else {
            None
        },
        None => None,
    }
}

pub open spec fn spec_parse_opt_index(s: Seq<char>) -> Option<(Option<usize>, Seq<char>)> {
    if s.len() == 0 {
        None
    } else if s[0] == 'n' {
        Some((None, s.skip(1)))
    } else if s[0] == 'i' {
        match spec_parse_num(s.skip(1)) {
            Some((n, r)) => if n <= usize::MAX {
                Some((Some(n as usize), r))
            } else {
                None
            },
            None => None,
        }
    } else {
        None
    }
}

pub open spec fn spec_parse_timer(s: Seq<char>) -> Option<(CompletedTimerV, Seq<char>)> {
    match spec_parse_str(s) {
        Some((id, r1)) => match spec_parse_str(r1) {
            Some((label, r2)) => match spec_parse_u32(r2) {
                Some((duration_secs, r3)) => match spec_parse_str(r3) {
                    Some((session_type, r4)) => match spec_parse_i64(r4) {
                        Some((completed_at, r5)) => Some((
                            CompletedTimerV { id, label, duration_secs, session_type, completed_at },
                            r5,
                        )),
                        None => None,
                    },
                    None => None,
                },
                None => None,
            },
            None => None,
        },
        None => None,
    }
}

pub open spec fn spec_parse_history(s: Seq<char>, k: nat) -> Option<(Seq<CompletedTimerV>, Seq<char>)>
    decreases k,
{
    if k == 0 {
        Some((Seq::<CompletedTimerV>::empty(), s))
    } else {
        match spec_parse_timer(s) {
            Some((t, r)) => match spec_parse_history(r, (k - 1) as nat) {
                Some((ts, r2)) => Some((seq![t] + ts, r2)),
                None => None,
            },
            None => None,
        }
    }
}

pub open spec fn spec_parse_session(s: Seq<char>) -> Option<(SessionInfoV, Seq<char>)> {
    match spec_parse_state(s) {
        Some((current_state, r1)) => match spec_parse_u32(r1) {
            Some((time_remaining_secs, r2)) => match spec_parse_u32(r2) {
                Some((rest_time_remaining_secs, r3)) => match spec_parse_bool(r3) {
                    Some((is_focus_mode, r4)) => match spec_parse_u32(r4) {
                        Some((current_session, r5)) => match spec_parse_u32(r5) {
                            Some((completed_sessions, r6)) => match spec_parse_i64(r6) {
                                Some((last_updated, r7)) => match spec_parse_str(r7) {
                                    Some((current_id, r8)) => match spec_parse_str(r8) {
                                        Some((current_label, r9)) => match spec_parse_num(r9) {
                                            Some((k, r10)) => if k <= HISTORY_LIMIT {
                                                match spec_parse_history(r10, k) {
                                                    Some((history, r11)) => match spec_parse_opt_index(r11) {
                                                        Some((history_index, r12)) => if (match history_index {
                                                            Some(i) => (i as nat) < history.len(),
                                                            None => true,
                                                        }) {
                                                            Some((
                                                                SessionInfoV {
                                                                    current_state,
                                                                    time_remaining_secs,
                                                                    rest_time_remaining_secs,
                                                                    is_focus_mode,
                                                                    current_session,
                                                                    completed_sessions,
                                                                    last_updated,
                                                                    current_id,
                                                                    current_label,
                                                                    history,
                                                                    history_index,
                                                                },
                                                                r12,
                                                            ))
                                                        } else {
                                                            None
                                                        },
                                                        None => None,
                                                    },
                                                    None => None,
                                                }
                                            } else {
                                                None
                                            },
                                            None => None,
                                        },
                                        None => None,
                                    },
                                    None => None,
                                },
                                None => None,
                            },
                            None => None,
                        },
                        None => None,
                    },
                    None => None,
                },
                None => None,
            },
            None => None,
        },
        None => None,
    }
}

// ---------------------------------------------------------------------------
// The round trip: parsing an encoding gives back the value and the rest.
// ---------------------------------------------------------------------------

/// All strings of an archived entry short enough to carry a length prefix.
pub open spec fn spec_timer_bounded(t: CompletedTimerV) -> bool {
    &&& t.id.len() <= u64::MAX
    &&& t.label.len() <= u64::MAX
    &&& t.session_type.len() <= u64::MAX
}

/// All strings of a record short enough to carry a length prefix; every
/// value a concrete `SessionInfo` can hold satisfies this.
pub open spec fn spec_session_bounded(v: SessionInfoV) -> bool {
    &&& v.current_id.len() <= u64::MAX
    &&& v.current_label.len() <= u64::MAX
    &&& forall|i: int| 0 <= i < v.history.len() ==> #[trigger] spec_timer_bounded(v.history[i])
}

/// The factor a full run of `spec_digits(n)` multiplies a parse accumulator by.
pub open spec fn spec_digits_shift(n: nat) -> nat
    decreases n,
{
    if n < 10 {
        10
    } else {
        10 * spec_digits_shift(n / 10)
    }
}

proof fn lemma_digit_char_val(d: nat)
    requires
        d < 10,
    ensures
        spec_digit_val(spec_digit_char(d)) == Some(d),
{
}

/// Consuming the digits of `n` multiplies the accumulator by the shift of
/// `n` and adds `n`, then continues on the rest.
proof fn lemma_parse_digits(n: nat, acc: nat, t: Seq<char>)
    requires
        acc * spec_digits_shift(n) + n <= u64::MAX,
    ensures
        spec_parse_num_rec(spec_digits(n) + t, acc)
            == spec_parse_num_rec(t, acc * spec_digits_shift(n) + n),
    decreases n,
{
    if n < 10 {
        let s = spec_digits(n) + t;
        lemma_digit_char_val(n);
        assert(s[0] == spec_digit_char(n));
        assert(spec_digit_val(';') is None);
        assert(s[0] != ';');
        assert(s.skip(1) =~= t);
    } else {
        let m = n / 10;
        let d = n % 10;
        let sh = spec_digits_shift(m);
        assert(n == 10 * m + d);
        assert(spec_digits_shift(n) == 10 * sh);
        assert(spec_digits(n) + t =~= spec_digits(m) + (seq![spec_digit_char(d)] + t));
        assert(acc * (10 * sh) == 10 * (acc * sh)) by (nonlinear_arith);
        assert(10 * (acc * sh + m) + d == acc * (10 * sh) + n) by (nonlinear_arith)
            requires
                n == 10 * m + d,
        ;
        assert(acc * sh + m <= u64::MAX);
        lemma_parse_digits(m, acc, seq![spec_digit_char(d)] + t);
        let acc2 = acc * sh + m;
        let s2 = seq![spec_digit_char(d)] + t;
        lemma_digit_char_val(d);
        assert(s2[0] == spec_digit_char(d));
        assert(spec_digit_val(';') is None);
        assert(s2[0] != ';');
        assert(s2.skip(1) =~= t);
        assert(acc2 * 10 + d == acc * spec_digits_shift(n) + n) by (nonlinear_arith)
            requires
                acc2 == acc * sh + m,
                spec_digits_shift(n) == 10 * sh,
                n == 10 * m + d,
        ;
    }
}

proof fn lemma_parse_enc_num(n: nat, t: Seq<char>)
    requires
        n <= u64::MAX,
    ensures
        spec_parse_num(spec_enc_num(n) + t) == Some((n, t)),
{
    let rest = seq![';'] + t;
    assert(spec_enc_num(n) + t =~= spec_digits(n) + rest);
    assert(0 * spec_digits_shift(n) == 0) by (nonlinear_arith);
    lemma_parse_digits(n, 0, rest);
    assert(rest[0] == ';');
    assert(rest.skip(1) =~= t);
}

proof fn lemma_parse_enc_u32(x: u32, t: Seq<char>)
    ensures
        spec_parse_u32(spec_enc_num(x as nat) + t) == Some((x, t)),
{
    lemma_parse_enc_num(x as nat, t);
}

proof fn lemma_parse_enc_i64(x: i64, t: Seq<char>)
    ensures
        spec_parse_i64(spec_enc_i64(x) + t) == Some((x, t)),
{
    let n = (x + TS_BIAS) as nat;
    lemma_parse_enc_num(n, t);
    assert((n - TS_BIAS) as i64 == x);
}

proof fn lemma_parse_enc_bool(b: bool, t: Seq<char>)
    ensures
        spec_parse_bool(spec_enc_bool(b) + t) == Some((b, t)),
{
    let s = spec_enc_bool(b) + t;
    assert(s.skip(1) =~= t);
}

proof fn lemma_parse_enc_state(st: TimerState, t: Seq<char>)
    ensures
        spec_parse_state(spec_enc_state(st) + t) == Some((st, t)),
{
    let s = spec_enc_state(st) + t;
    assert(s.skip(1) =~= t);
}

proof fn lemma_parse_enc_str(x: Seq<char>, t: Seq<char>)
    requires
        x.len() <= u64::MAX,
    ensures
        spec_parse_str(spec_enc_str(x) + t) == Some((x, t)),
{
    assert(spec_enc_str(x) + t =~= spec_enc_num(x.len()) + (x + t));
    lemma_parse_enc_num(x.len(), x + t);
    assert((x + t).take(x.len() as int) =~= x);
    assert((x + t).skip(x.len() as int) =~= t);
}

proof fn lemma_parse_enc_opt_index(x: Option<usize>, t: Seq<char>)
    ensures
        spec_parse_opt_index(spec_enc_opt_index(x) + t) == Some((x, t)),
{
    let s = spec_enc_opt_index(x) + t;
    match x {
        None => {
            assert(s.skip(1) =~= t);
        },
        Some(i) => {
            assert(s.skip(1) =~= spec_enc_num(i as nat) + t);
            lemma_parse_enc_num(i as nat, t);
        },
    }
}

proof fn lemma_parse_enc_timer(tv: CompletedTimerV, t: Seq<char>)
    requires
        spec_timer_bounded(tv),
    ensures
        spec_parse_timer(spec_enc_timer(tv) + t) == Some((tv, t)),
{
    let u5 = spec_enc_i64(tv.completed_at) + t;
    let u4 = spec_enc_str(tv.session_type) + u5;
    let u3 = spec_enc_num(tv.duration_secs as nat) + u4;
    let u2 = spec_enc_str(tv.label) + u3;
    assert(spec_enc_timer(tv) + t =~= spec_enc_str(tv.id) + u2);
    lemma_parse_enc_str(tv.id, u2);
    lemma_parse_enc_str(tv.label, u3);
    lemma_parse_enc_u32(tv.duration_secs, u4);
    lemma_parse_enc_str(tv.session_type, u5);
    lemma_parse_enc_i64(tv.completed_at, t);
}

proof fn lemma_parse_enc_history(h: Seq<CompletedTimerV>, t: Seq<char>)
    requires
        forall|i: int| 0 <= i < h.len() ==> #[trigger] spec_timer_bounded(h[i]),
    ensures
        spec_parse_history(spec_enc_history(h) + t, h.len()) == Some((h, t)),
    decreases h.len(),
{
    if h.len() == 0 {
        assert(spec_enc_history(h) + t =~= t);
        assert(Seq::<CompletedTimerV>::empty() =~= h);
    } else {
        assert(spec_enc_history(h) + t
            =~= spec_enc_timer(h[0]) + (spec_enc_history(h.skip(1)) + t));
        lemma_parse_enc_timer(h[0], spec_enc_history(h.skip(1)) + t);
        lemma_parse_enc_history(h.skip(1), t);
        assert(seq![h[0]] + h.skip(1) =~= h);
    }
}

proof fn lemma_seq_assoc(a: Seq<char>, b: Seq<char>, c: Seq<char>)
    ensures
        a + b + c == a + (b + c),
{
    assert(a + b + c =~= a + (b + c));
}

#[verifier::rlimit(100)]
proof fn lemma_parse_enc_session(v: SessionInfoV, t: Seq<char>)
    requires
        v.wf(),
        spec_session_bounded(v),
    ensures
        spec_parse_session(spec_enc_session(v) + t) == Some((v, t)),
{
    let e1 = spec_enc_state(v.current_state);
    let e2 = spec_enc_num(v.time_remaining_secs as nat);
    let e3 = spec_enc_num(v.rest_time_remaining_secs as nat);
    let e4 = spec_enc_bool(v.is_focus_mode);
    let e5 = spec_enc_num(v.current_session as nat);
    let e6 = spec_enc_num(v.completed_sessions as nat);
    let e7 = spec_enc_i64(v.last_updated);
    let e8 = spec_enc_str(v.current_id);
    let e9 = spec_enc_str(v.current_label);
    let e10 = spec_enc_num(v.history.len());
    let e11 = spec_enc_history(v.history);
    let e12 = spec_enc_opt_index(v.history_index);
    let u12 = e12 + t;
    let u11 = e11 + u12;
    let u10 = e10 + u11;
    let u9 = e9 + u10;
    let u8 = e8 + u9;
    let u7 = e7 + u8;
    let u6 = e6 + u7;
    let u5 = e5 + u6;
    let u4 = e4 + u5;
    let u3 = e3 + u4;
    let u2 = e2 + u3;
    lemma_seq_assoc(e1 + e2 + e3 + e4 + e5 + e6 + e7 + e8 + e9 + e10 + e11, e12, t);
    lemma_seq_assoc(e1 + e2 + e3 + e4 + e5 + e6 + e7 + e8 + e9 + e10, e11, u12);
    lemma_seq_assoc(e1 + e2 + e3 + e4 + e5 + e6 + e7 + e8 + e9, e10, u11);
    lemma_seq_assoc(e1 + e2 + e3 + e4 + e5 + e6 + e7 + e8, e9, u10);
    lemma_seq_assoc(e1 + e2 + e3 + e4 + e5 + e6 + e7, e8, u9);
    lemma_seq_assoc(e1 + e2 + e3 + e4 + e5 + e6, e7, u8);
    lemma_seq_assoc(e1 + e2 + e3 + e4 + e5, e6, u7);
    lemma_seq_assoc(e1 + e2 + e3 + e4, e5, u6);
    lemma_seq_assoc(e1 + e2 + e3, e4, u5);
    lemma_seq_assoc(e1 + e2, e3, u4);
    lemma_seq_assoc(e1, e2, u3);
    assert(spec_enc_session(v) + t == e1 + u2);
    lemma_parse_enc_state(v.current_state, u2);
    lemma_parse_enc_u32(v.time_remaining_secs, u3);
    lemma_parse_enc_u32(v.rest_time_remaining_secs, u4);
    lemma_parse_enc_bool(v.is_focus_mode, u5);
    lemma_parse_enc_u32(v.current_session, u6);
    lemma_parse_enc_u32(v.completed_sessions, u7);
    lemma_parse_enc_i64(v.last_updated, u8);
    lemma_parse_enc_str(v.current_id, u9);
    lemma_parse_enc_str(v.current_label, u10);
    lemma_parse_enc_num(v.history.len(), u11);
    lemma_parse_enc_history(v.history, u12);
    lemma_parse_enc_opt_index(v.history_index, t);
}

/// Law: decoding an encoded snapshot yields the record it came from, with
/// nothing left over. Every concrete `SessionInfo` that satisfies the
/// record invariant meets the premises.
pub proof fn lemma_snapshot_roundtrip(v: SessionInfoV)
    requires
        v.wf(),
        spec_session_bounded(v),
    ensures
        spec_parse_session(spec_enc_session(v)) == Some((v, Seq::<char>::empty())),
{
    assert(spec_enc_session(v) =~= spec_enc_session(v) + Seq::<char>::empty());
    lemma_parse_enc_session(v, Seq::<char>::empty());
}

// ---------------------------------------------------------------------------
// The executable encoder.
// ---------------------------------------------------------------------------

fn push_num(out: &mut Vec<char>, n: u64)
    ensures
        final(out)@ == old(out)@ + spec_enc_num(n as nat),
{
    text::push_digits(out, n);
    out.push(';');
    assert(out@ =~= old(out)@ + spec_enc_num(n as nat));
}

fn push_bool(out: &mut Vec<char>, b: bool)
    ensures
        final(out)@ == old(out)@ + spec_enc_bool(b),
{
    if b {
        out.push('t');
    } else {
        out.push('f');
    }
    assert(out@ =~= old(out)@ + spec_enc_bool(b));
}

fn push_i64(out: &mut Vec<char>, x: i64)
    ensures
        final(out)@ == old(out)@ + spec_enc_i64(x),
{
    let biased: u64 = if x >= 0 {
        (x as u64) + TS_BIAS
    } else {
        (x - i64::MIN) as u64
    };
    assert(biased as nat == (x + TS_BIAS) as nat);
    push_num(out, biased);
}

fn push_state(out: &mut Vec<char>, st: TimerState)
    ensures
        final(out)@ == old(out)@ + spec_enc_state(st),
{
    let c = match st {
        TimerState::Idle => 'I',
        TimerState::Working => 'W',
        TimerState::WorkPaused => 'w',
        TimerState::ShortBreak => 'B',
        TimerState::BreakPaused => 'b',
        TimerState::LongBreak => 'L',
        TimerState::LongBreakPaused => 'l',
    };
    out.push(c);
    assert(out@ =~= old(out)@ + spec_enc_state(st));
}

fn push_opt_index(out: &mut Vec<char>, x: Option<usize>)
    ensures
        final(out)@ == old(out)@ + spec_enc_opt_index(x),
{
    match x {
        None => {
            out.push('n');
            assert(out@ =~= old(out)@ + spec_enc_opt_index(x));
        },
        Some(i) => {
            out.push('i');
            push_num(out, i as u64);
            assert(out@ =~= old(out)@ + spec_enc_opt_index(x));
        },
    }
}

fn push_str_field(out: &mut Vec<char>, s: &str)
    ensures
        final(out)@ == old(out)@ + spec_enc_str(s@),
{
    let chars = text::chars_of_str(s);
    push_num(out, chars.len() as u64);
    let mut i: usize = 0;
    while i < chars.len()
        invariant
            i <= chars@.len(),
            chars@ == s@,
            out@ == old(out)@ + spec_enc_num(s@.len()) + s@.take(i as int),
        decreases chars@.len() - i,
    {
        out.push(chars[i]);
        i = i + 1;
        assert(out@ =~= old(out)@ + spec_enc_num(s@.len()) + s@.take(i as int));
    }
    assert(out@ =~= old(out)@ + spec_enc_str(s@));
}

fn push_timer(out: &mut Vec<char>, t: &CompletedTimer)
    ensures
        final(out)@ == old(out)@ + spec_enc_timer(t@),
{
    push_str_field(out, t.id.as_str());
    push_str_field(out, t.label.as_str());
    push_num(out, t.duration_secs as u64);
    push_str_field(out, t.session_type.as_str());
    push_i64(out, t.completed_at);
    assert(out@ =~= old(out)@ + spec_enc_timer(t@));
}

proof fn lemma_enc_history_snoc(s: Seq<CompletedTimerV>, t: CompletedTimerV)
    ensures
        spec_enc_history(s.push(t)) == spec_enc_history(s) + spec_enc_timer(t),
    decreases s.len(),
{
    if s.len() == 0 {
        assert(s.push(t)[0] == t);
        assert(s.push(t).skip(1) =~= s);
        assert(spec_enc_history(s.push(t)) == spec_enc_timer(t) + spec_enc_history(s));
        assert(spec_enc_history(s) == Seq::<char>::empty());
        assert(spec_enc_timer(t) + Seq::<char>::empty()
            =~= Seq::<char>::empty() + spec_enc_timer(t));
    } else {
        assert(s.push(t)[0] == s[0]);
        assert(s.push(t).skip(1) =~= s.skip(1).push(t));
        lemma_enc_history_snoc(s.skip(1), t);
        lemma_seq_assoc(spec_enc_timer(s[0]), spec_enc_history(s.skip(1)), spec_enc_timer(t));
    }
}

fn push_history(out: &mut Vec<char>, h: &Vec<CompletedTimer>)
    ensures
        final(out)@ == old(out)@ + spec_enc_history(h@.map_values(|t: CompletedTimer| t@)),
{
    let ghost hv = h@.map_values(|t: CompletedTimer| t@);
    let mut i: usize = 0;
    while i < h.len()
        invariant
            i <= h@.len(),
            hv == h@.map_values(|t: CompletedTimer| t@),
            out@ == old(out)@ + spec_enc_history(hv.take(i as int)),
        decreases h@.len() - i,
    {
        push_timer(out, &h[i]);
        proof {
            lemma_enc_history_snoc(hv.take(i as int), hv[i as int]);
            assert(hv.take(i as int).push(hv[i as int]) =~= hv.take(i + 1 as int));
        }
        i = i + 1;
        assert(out@ =~= old(out)@ + spec_enc_history(hv.take(i as int)));
    }
    assert(hv.take(h@.len() as int) =~= hv);
}

/// The persistence boundary: the snapshot serialization itself. Reading and
/// writing the file is the caller's business; absence or malformed content is
/// answered by `decode` returning `None`, to be met with a fresh default.
pub struct Persistence;

impl Persistence {
    /// The snapshot file below a data directory.
    pub fn state_path(data_dir: &str) -> (r: String)
        ensures
            r@ == data_dir@ + "/state.snapshot"@,
    {
        let mut path = data_dir.to_owned();
        path.append("/state.snapshot");
        path
    }

    /// Serializes the full record into one snapshot string.
    #[verifier::rlimit(100)]
    pub fn encode(info: &SessionInfo) -> (r: String)
        ensures
            r@ == spec_enc_session(info@),
    {
        let mut out: Vec<char> = Vec::new();
        push_state(&mut out, info.current_state);
        push_num(&mut out, info.time_remaining_secs as u64);
        push_num(&mut out, info.rest_time_remaining_secs as u64);
        push_bool(&mut out, info.is_focus_mode);
        push_num(&mut out, info.current_session as u64);
        push_num(&mut out, info.completed_sessions as u64);
        push_i64(&mut out, info.last_updated);
        push_str_field(&mut out, info.current_id.as_str());
        push_str_field(&mut out, info.current_label.as_str());
        push_num(&mut out, info.history.len() as u64);
        push_history(&mut out, &info.history);
        push_opt_index(&mut out, info.history_index);
        assert(out@ =~= spec_enc_session(info@));
        text::string_from_chars(&out)
    }
}

// ---------------------------------------------------------------------------
// The executable parser: a cursor into the character vector, each step
// provably the spec parse of the unread suffix.
// ---------------------------------------------------------------------------

fn digit_val(c: char) -> (r: Option<u64>)
    ensures
        match r {
            Some(d) => spec_digit_val(c) == Some(d as nat),
            None => spec_digit_val(c) is None,
        },
{
    match c {
        '0' => Some(0),
        '1' => Some(1),
        '2' => Some(2),
        '3' => Some(3),
        '4' => Some(4),
        '5' => Some(5),
        '6' => Some(6),
        '7' => Some(7),
        '8' => Some(8),
        '9' => Some(9),
        _ => None,
    }
}

fn parse_num_rec(v: &Vec<char>, i: usize, acc: u64) -> (r: Option<(u64, usize)>)
    requires
        i <= v@.len(),
    ensures
        match r {
            Some(p) => i <= p.1 <= v@.len()
                && spec_parse_num_rec(v@.skip(i as int), acc as nat)
                    == Some((p.0 as nat, v@.skip(p.1 as int))),
            None => spec_parse_num_rec(v@.skip(i as int), acc as nat) is None,
        },
    decreases v@.len() - i,
{
    if i == v.len() {
        None
    } else {
        let c = v[i];
        assert(v@.skip(i as int)[0] == c);
        if c == ';' {
            assert(v@.skip(i as int).skip(1) =~= v@.skip(i as int + 1));
            Some((acc, i + 1))
        } else {
            match digit_val(c) {
                Some(d) => {
                    assert(d <= 9);
                    if acc <= (u64::MAX - d) / 10 {
                        proof {
                            assert(acc * 10 + d <= u64::MAX) by (nonlinear_arith)
                                requires
                                    acc <= (u64::MAX - d) / 10,
                                    d <= 9,
                            ;
                            assert(v@.skip(i as int).skip(1) =~= v@.skip(i as int + 1));
                        }
                        parse_num_rec(v, i + 1, acc * 10 + d)
                    } else {
                        proof {
                            assert(acc * 10 + d > u64::MAX) by (nonlinear_arith)
                                requires
                                    acc > (u64::MAX - d) / 10,
                                    d <= 9,
                            ;
                        }
                        None
                    }
                },
                None => None,
            }
        }
    }
}

fn parse_num(v: &Vec<char>, i: usize) -> (r: Option<(u64, usize)>)
    requires
        i <= v@.len(),
    ensures
        match r {
            Some(p) => i <= p.1 <= v@.len()
                && spec_parse_num(v@.skip(i as int)) == Some((p.0 as nat, v@.skip(p.1 as int))),
            None => spec_parse_num(v@.skip(i as int)) is None,
        },
{
    parse_num_rec(v, i, 0)
}

fn parse_u32(v: &Vec<char>, i: usize) -> (r: Option<(u32, usize)>)
    requires
        i <= v@.len(),
    ensures
        match r {
            Some(p) => i <= p.1 <= v@.len()
                && spec_parse_u32(v@.skip(i as int)) == Some((p.0, v@.skip(p.1 as int))),
            None => spec_parse_u32(v@.skip(i as int)) is None,
        },
{
    match parse_num(v, i) {
        Some((n, j)) => {
            if n <= u32::MAX as u64 {
                Some((n as u32, j))
            } else {
                None
            }
        },
        None => None,
    }
}

fn parse_i64(v: &Vec<char>, i: usize) -> (r: Option<(i64, usize)>)
    requires
        i <= v@.len(),
    ensures
        match r {
            Some(p) => i <= p.1 <= v@.len()
                && spec_parse_i64(v@.skip(i as int)) == Some((p.0, v@.skip(p.1 as int))),
            None => spec_parse_i64(v@.skip(i as int)) is None,
        },
{
    match parse_num(v, i) {
        Some((n, j)) => {
            let x: i64 = if n >= TS_BIAS {
                (n - TS_BIAS) as i64
            } else {
                (n as i64) + i64::MIN
            };
            assert(x == n - TS_BIAS);
            Some((x, j))
        },
        None => None,
    }
}

fn parse_bool(v: &Vec<char>, i: usize) -> (r: Option<(bool, usize)>)
    requires
        i <= v@.len(),
    ensures
        match r {
            Some(p) => i <= p.1 <= v@.len()
                && spec_parse_bool(v@.skip(i as int)) == Some((p.0, v@.skip(p.1 as int))),
            None => spec_parse_bool(v@.skip(i as int)) is None,
        },
{
    if i == v.len() {
        None
    } else {
        let c = v[i];
        assert(v@.skip(i as int)[0] == c);
        assert(v@.skip(i as int).skip(1) =~= v@.skip(i as int + 1));
        if c == 't' {
            Some((true, i + 1))
        } else if c == 'f' {
            Some((false, i + 1))
        } else {
            None
        }
    }
}

fn parse_state(v: &Vec<char>, i: usize) -> (r: Option<(TimerState, usize)>)
    requires
        i <= v@.len(),
    ensures
        match r {
            Some(p) => i <= p.1 <= v@.len()
                && spec_parse_state(v@.skip(i as int)) == Some((p.0, v@.skip(p.1 as int))),
            None => spec_parse_state(v@.skip(i as int)) is None,
        },
{
    if i == v.len() {
        None
    } else {
        let c = v[i];
        assert(v@.skip(i as int)[0] == c);
        assert(v@.skip(i as int).skip(1) =~= v@.skip(i as int + 1));
        if c == 'I' {
            Some((TimerState::Idle, i + 1))
        } else if c == 'W' {
            Some((TimerState::Working, i + 1))
        } else if c == 'w' {
            Some((TimerState::WorkPaused, i + 1))
        } else if c == 'B' {
            Some((TimerState::ShortBreak, i + 1))
        } else if c == 'b' {
            Some((TimerState::BreakPaused, i + 1))
        } else if c == 'L' {
            Some((TimerState::LongBreak, i + 1))
        } else if c == 'l' {
            Some((TimerState::LongBreakPaused, i + 1))
        } else {
            None
        }
    }
}

fn parse_str(v: &Vec<char>, i: usize) -> (r: Option<(String, usize)>)
    requires
        i <= v@.len(),
    ensures
        match r {
            Some(p) => i <= p.1 <= v@.len()
                && spec_parse_str(v@.skip(i as int)) == Some((p.0@, v@.skip(p.1 as int))),
            None => spec_parse_str(v@.skip(i as int)) is None,
        },
{
    match parse_num(v, i) {
        Some((n, j)) => {
            if n <= (v.len() - j) as u64 {
                let len = n as usize;
                let mut out = String::new();
                let mut k: usize = 0;
                while k < len
                    invariant
                        v@.len() <= usize::MAX,
                        j + len <= v@.len(),
                        k <= len,
                        out@ == v@.subrange(j as int, j + k as int),
                    decreases len - k,
                {
                    text::push_char(&mut out, v[j + k]);
                    k = k + 1;
                    assert(out@ =~= v@.subrange(j as int, j + k as int));
                }
                proof {
                    assert(v@.skip(j as int).take(n as int) =~= v@.subrange(j as int, j + len as int));
                    assert(v@.skip(j as int).skip(n as int) =~= v@.skip(j + len as int));
                }
                Some((out, j + len))
            } else {
                None
            }
        },
        None => None,
    }
}

fn parse_opt_index(v: &Vec<char>, i: usize) -> (r: Option<(Option<usize>, usize)>)
    requires
        i <= v@.len(),
    ensures
        match r {
            Some(p) => i <= p.1 <= v@.len()
                && spec_parse_opt_index(v@.skip(i as int)) == Some((p.0, v@.skip(p.1 as int))),
            None => spec_parse_opt_index(v@.skip(i as int)) is None,
        },
{
    if i == v.len() {
        None
    } else {
        let c = v[i];
        assert(v@.skip(i as int)[0] == c);
        assert(v@.skip(i as int).skip(1) =~= v@.skip(i as int + 1));
        if c == 'n' {
            Some((None, i + 1))
        } else if c == 'i' {
            match parse_num(v, i + 1) {
                Some((n, j)) => {
                    if n <= usize::MAX as u64 {
                        Some((Some(n as usize), j))
                    } else {
                        None
                    }
                },
                None => None,
            }
        } else {
            None
        }
    }
}

fn parse_timer(v: &Vec<char>, i: usize) -> (r: Option<(CompletedTimer, usize)>)
    requires
        i <= v@.len(),
    ensures
        match r {
            Some(p) => i <= p.1 <= v@.len()
                && spec_parse_timer(v@.skip(i as int)) == Some((p.0@, v@.skip(p.1 as int))),
            None => spec_parse_timer(v@.skip(i as int)) is None,
        },
{
    match parse_str(v, i) {
        Some((id, j1)) => match parse_str(v, j1) {
            Some((label, j2)) => match parse_u32(v, j2) {
                Some((duration_secs, j3)) => match parse_str(v, j3) {
                    Some((session_type, j4)) => match parse_i64(v, j4) {
                        Some((completed_at, j5)) => Some((
                            CompletedTimer { id, label, duration_secs, session_type, completed_at },
                            j5,
                        )),
                        None => None,
                    },
                    None => None,
                },
                None => None,
            },
            None => None,
        },
        None => None,
    }
}

fn parse_history(v: &Vec<char>, i: usize, k: u64) -> (r: Option<(Vec<CompletedTimer>, usize)>)
    requires
        i <= v@.len(),
    ensures
        match r {
            Some(p) => i <= p.1 <= v@.len()
                && p.0@.len() == k as nat
                && spec_parse_history(v@.skip(i as int), k as nat)
                    == Some((p.0@.map_values(|t: CompletedTimer| t@), v@.skip(p.1 as int))),
            None => spec_parse_history(v@.skip(i as int), k as nat) is None,
        },
    decreases k,
{
    if k == 0 {
        let out: Vec<CompletedTimer> = Vec::new();
        assert(out@.map_values(|t: CompletedTimer| t@) =~= Seq::<CompletedTimerV>::empty());
        Some((out, i))
    } else {
        match parse_timer(v, i) {
            Some((t, j)) => match parse_history(v, j, k - 1) {
                Some((mut ts, j2)) => {
                    let ghost t0 = t@;
                    let ghost tail = ts@.map_values(|x: CompletedTimer| x@);
                    ts.insert(0, t);
                    assert(ts@.map_values(|x: CompletedTimer| x@) =~= seq![t0] + tail);
                    Some((ts, j2))
                },
                None => None,
            },
            None => None,
        }
    }
}

fn parse_session(v: &Vec<char>, i: usize) -> (r: Option<(SessionInfo, usize)>)
    requires
        i <= v@.len(),
    ensures
        match r {
            Some(p) => i <= p.1 <= v@.len()
                && spec_parse_session(v@.skip(i as int)) == Some((p.0@, v@.skip(p.1 as int)))
                && p.0.wf(),
            None => spec_parse_session(v@.skip(i as int)) is None,
        },
{
    let r1 = match parse_state(v, i) {
        Some(p) => p,
        None => { return None; },
    };
    let r2 = match parse_u32(v, r1.1) {
        Some(p) => p,
        None => { return None; },
    };
    let r3 = match parse_u32(v, r2.1) {
        Some(p) => p,
        None => { return None; },
    };
    let r4 = match parse_bool(v, r3.1) {
        Some(p) => p,
        None => { return None; },
    };
    let r5 = match parse_u32(v, r4.1) {
        Some(p) => p,
        None => { return None; },
    };
    let r6 = match parse_u32(v, r5.1) {
        Some(p) => p,
        None => { return None; },
    };
    let r7 = match parse_i64(v, r6.1) {
        Some(p) => p,
        None => { return None; },
    };
    let r8 = match parse_str(v, r7.1) {
        Some(p) => p,
        None => { return None; },
    };
    let r9 = match parse_str(v, r8.1) {
        Some(p) => p,
        None => { return None; },
    };
    let r10 = match parse_num(v, r9.1) {
        Some(p) => p,
        None => { return None; },
    };
    if r10.0 > HISTORY_LIMIT as u64 {
        return None;
    }
    let r11 = match parse_history(v, r10.1, r10.0) {
        Some(p) => p,
        None => { return None; },
    };
    let r12 = match parse_opt_index(v, r11.1) {
        Some(p) => p,
        None => { return None; },
    };
    let index_ok = match r12.0 {
        Some(ix) => ix < r11.0.len(),
        None => true,
    };
    if !index_ok {
        return None;
    }
    let info = SessionInfo {
        current_state: r1.0,
        time_remaining_secs: r2.0,
        rest_time_remaining_secs: r3.0,
        is_focus_mode: r4.0,
        current_session: r5.0,
        completed_sessions: r6.0,
        last_updated: r7.0,
        current_id: r8.0,
        current_label: r9.0,
        history: r11.0,
        history_index: r12.0,
    };
    Some((info, r12.1))
}

impl Persistence {
    /// Reads a snapshot string back into a record. `None` on any malformed
    /// or trailing content; a decoded record always satisfies the record
    /// invariant.
    pub fn decode(s: &str) -> (r: Option<SessionInfo>)
        ensures
            match spec_parse_session(s@) {
                Some(p) => if p.1.len() == 0 {
                    r matches Some(info) && info@ == p.0 && info.wf()
                } else {
                    r is None
                },
                None => r is None,
            },
    {
        let v = text::chars_of_str(s);
        assert(v@.skip(0) =~= s@);
        match parse_session(&v, 0) {
            Some((info, j)) => {
                if j == v.len() {
                    assert(v@.skip(j as int).len() == 0);
                    Some(info)
                } else {
                    assert(v@.skip(j as int).len() > 0);
                    None
                }
            },
            None => None,
        }
    }
}

} // verus!
