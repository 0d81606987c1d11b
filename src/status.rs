use vstd::prelude::*;

use crate::text::{decode_lossy, utf8_lossy, decimal, digit_char, push_char, push_decimal, split_lines, trim, trimmed_lines};

verus! {

/// A named stage of the startup sequence.
#[derive(Clone, Copy, Debug, PartialEq, Eq, Structural)]
pub enum Phase {
    Initializing,
    Qdrant,
    QdrantWait,
    Unpacking,
    BackendStarting,
    BackendWait,
    Ready,
    Timeout,
}

/// Position of a phase along the sequence; the two final phases share one.
pub open spec fn phase_rank(p: Phase) -> nat {
    match p {
        Phase::Initializing => 0,
        Phase::Qdrant => 1,
        Phase::QdrantWait => 2,
        Phase::Unpacking => 3,
        Phase::BackendStarting => 4,
        Phase::BackendWait => 5,
        Phase::Ready => 6,
        Phase::Timeout => 6,
    }
}

pub open spec fn is_final(p: Phase) -> bool {
    p == Phase::Ready || p == Phase::Timeout
}

/// Phases only move forward; a final phase is never left, and the two final
/// phases exclude each other.
pub open spec fn may_enter(from: Phase, to: Phase) -> bool {
    phase_rank(from) <= phase_rank(to) && (is_final(from) ==> to == from)
}

pub open spec fn phase_name(p: Phase) -> Seq<char> {
    match p {
        Phase::Initializing => "initializing"@,
        Phase::Qdrant => "qdrant"@,
        Phase::QdrantWait => "qdrant_wait"@,
        Phase::Unpacking => "unpacking"@,
        Phase::BackendStarting => "backend_starting"@,
        Phase::BackendWait => "backend_wait"@,
        Phase::Ready => "ready"@,
        Phase::Timeout => "timeout"@,
    }
}

impl Phase {
    /// The name under which the phase is reported.
    pub fn name(&self) -> (r: String)
        ensures
            r@ == phase_name(*self),
    {
        match self {
            Phase::Initializing => String::from_str("initializing"),
            Phase::Qdrant => String::from_str("qdrant"),
            Phase::QdrantWait => String::from_str("qdrant_wait"),
            Phase::Unpacking => String::from_str("unpacking"),
            Phase::BackendStarting => String::from_str("backend_starting"),
            Phase::BackendWait => String::from_str("backend_wait"),
            Phase::Ready => String::from_str("ready"),
            Phase::Timeout => String::from_str("timeout"),
        }
    }
}

/// A copy of the startup state, handed to whoever polls for progress.
pub struct StartupStatus {
    pub phase: String,
    pub message: String,
    pub elapsed_ms: u64,
    pub logs: Vec<String>,
}

/// The startup state that the sequence updates: the current phase and
/// message, and every log line so far. Times are milliseconds since the
/// sequence started, read by the caller from one fixed start instant.
pub struct StartupState {
    pub phase: Phase,
    pub message: String,
    pub logs: Vec<String>,
}

/// Elapsed time in tenths of a second, rounded to the nearest tenth.
pub open spec fn tenths(ms: nat) -> nat {
    ms / 100 + if ms % 100 >= 50 { 1nat } else { 0nat }
}

/// A log line: the elapsed seconds with one decimal in brackets, then the
/// message, as in `[12.3s] message`.
pub open spec fn log_entry(ms: nat, msg: Seq<char>) -> Seq<char> {
    seq!['['] + decimal(tenths(ms) / 10) + seq!['.', digit_char(tenths(ms) % 10), 's', ']', ' ']
        + msg
}

/// The message under which a line of engine output is logged.
pub open spec fn engine_line(line: Seq<char>) -> Seq<char> {
    "  docker \u{203A} "@ + line
}

/// The log lines that engine output made of `lines` gives: one for each line
/// that is not blank, trimmed, in order.
pub open spec fn engine_entries(ms: nat, lines: Seq<Seq<char>>) -> Seq<Seq<char>>
    decreases lines.len(),
{
    if lines.len() == 0 {
        Seq::empty()
    } else {
        let rest = engine_entries(ms, lines.drop_last());
        if trim(lines.last()).len() == 0 {
            rest
        } else {
            rest.push(log_entry(ms, engine_line(trim(lines.last()))))
        }
    }
}

/// Builds the log line for `msg` at `elapsed_ms`.
pub fn make_entry(elapsed_ms: u64, msg: &str) -> (r: String)
    ensures
        r@ == log_entry(elapsed_ms as nat, msg@),
{
    let t: u64 = elapsed_ms / 100 + if elapsed_ms % 100 >= 50 { 1 } else { 0 };
    let mut s = String::new();
    push_char(&mut s, '[');
    push_decimal(&mut s, t / 10);
    push_char(&mut s, '.');
    push_decimal(&mut s, t % 10);
    push_char(&mut s, 's');
    push_char(&mut s, ']');
    push_char(&mut s, ' ');
    s.append(msg);
    proof {
        assert(decimal((t % 10) as nat) =~= seq![digit_char((t % 10) as nat)]);
        assert(s@ =~= log_entry(elapsed_ms as nat, msg@));
    }
    s
}

impl StartupState {
    pub open spec fn logs_view(&self) -> Seq<Seq<char>> {
        self.logs.deep_view()
    }

    /// A fresh state: phase `initializing`, no log lines.
    pub fn new() -> (r: StartupState)
        ensures
            r.phase == Phase::Initializing,
            r.message@ == "Starting up..."@,
            r.logs@.len() == 0,
    {
        StartupState {
            phase: Phase::Initializing,
            message: String::from_str("Starting up..."),
            logs: Vec::new(),
        }
    }

    /// Enters `phase` with `message`, and logs the message.
    pub fn set_phase(&mut self, phase: Phase, message: &str, elapsed_ms: u64)
        requires
            may_enter(old(self).phase, phase),
        ensures
            final(self).phase == phase,
            final(self).message@ == message@,
            final(self).logs_view() == old(self).logs_view().push(
                log_entry(elapsed_ms as nat, message@),
            ),
    {
        self.phase = phase;
        self.message = String::from_str(message);
        self.add_log(message, elapsed_ms);
    }

    /// Appends `msg` to the log, stamped with `elapsed_ms`.
    pub fn add_log(&mut self, msg: &str, elapsed_ms: u64)
        ensures
            final(self).phase == old(self).phase,
            final(self).message@ == old(self).message@,
            final(self).logs_view() == old(self).logs_view().push(
                log_entry(elapsed_ms as nat, msg@),
            ),
    {
        let e = make_entry(elapsed_ms, msg);
        self.logs.push(e);
        proof {
            assert(final(self).logs_view() =~= old(self).logs_view().push(
                log_entry(elapsed_ms as nat, msg@),
            ));
        }
    }

    /// A snapshot of the state, taken `elapsed_ms` after the start.
    pub fn to_status(&self, elapsed_ms: u64) -> (r: StartupStatus)
        ensures
            r.phase@ == phase_name(self.phase),
            r.message@ == self.message@,
            r.elapsed_ms == elapsed_ms,
            r.logs.deep_view() == self.logs_view(),
    {
        let mut logs: Vec<String> = Vec::new();
        let mut i: usize = 0;
        while i < self.logs.len()
            invariant
                i <= self.logs.len(),
                logs.len() == i,
                forall|j: int| 0 <= j < i ==> #[trigger] logs[j]@ == self.logs[j]@,
            decreases self.logs.len() - i,
        {
            let c = self.logs[i].clone();
            logs.push(c);
            i = i + 1;
        }
        assert(logs.deep_view() =~= self.logs.deep_view());
        StartupStatus {
            phase: self.phase.name(),
            message: self.message.clone(),
            elapsed_ms,
            logs,
        }
    }
}

/// Logs each line of engine output in `text` that is not blank, trimmed and
/// marked as engine output.
pub fn log_engine_text(state: &mut StartupState, text: &str, elapsed_ms: u64)
    ensures
        final(state).phase == old(state).phase,
        final(state).message@ == old(state).message@,
        final(state).logs_view() == old(state).logs_view() + engine_entries(
            elapsed_ms as nat,
            split_lines(text@),
        ),
{
    let lines = trimmed_lines(text);
    let ghost ls = split_lines(text@);
    let mut i: usize = 0;
    proof {
        assert(ls.take(0) =~= Seq::<Seq<char>>::empty());
        assert(old(state).logs_view() + engine_entries(elapsed_ms as nat, ls.take(0))
            =~= old(state).logs_view());
    }
    while i < lines.len()
        invariant
            i <= lines.len() == ls.len(),
            forall|j: int| 0 <= j < lines.len() ==> #[trigger] lines[j]@ == trim(ls[j]),
            state.phase == old(state).phase,
            state.message@ == old(state).message@,
            state.logs_view() == old(state).logs_view() + engine_entries(
                elapsed_ms as nat,
                ls.take(i as int),
            ),
        decreases lines.len() - i,
    {
        assert(ls.take(i + 1).drop_last() =~= ls.take(i as int));
        assert(ls.take(i + 1).last() == ls[i as int]);
        assert(lines[i as int]@ == trim(ls[i as int]));
        if lines[i].len() > 0 {
            let mut msg = String::from_str("  docker \u{203A} ");
            let mut k: usize = 0;
            while k < lines[i].len()
                invariant
                    i < lines.len(),
                    k <= lines[i as int].len(),
                    msg@ == "  docker \u{203A} "@ + lines[i as int]@.take(k as int),
                decreases lines[i as int].len() - k,
            {
                push_char(&mut msg, lines[i][k]);
                k = k + 1;
                assert(msg@ =~= "  docker \u{203A} "@ + lines[i as int]@.take(k as int));
            }
            assert(lines[i as int]@.take(k as int) =~= lines[i as int]@);
            state.add_log(msg.as_str(), elapsed_ms);
            assert(state.logs_view() =~= old(state).logs_view() + engine_entries(
                elapsed_ms as nat,
                ls.take(i + 1),
            ));
        }
        i = i + 1;
    }
    assert(ls.take(i as int) =~= ls);
}

/// Logs the output of one engine command: each line of its standard output
/// that is not blank, then each of its standard error.
pub fn log_docker_output(
    stdout: &[u8],
    stderr: &[u8],
    state: &mut StartupState,
    elapsed_ms: u64,
)
    ensures
        final(state).phase == old(state).phase,
        final(state).message@ == old(state).message@,
        final(state).logs_view() == old(state).logs_view() + engine_entries(
            elapsed_ms as nat,
            split_lines(utf8_lossy(stdout@)),
        ) + engine_entries(elapsed_ms as nat, split_lines(utf8_lossy(stderr@))),
{
    let out = decode_lossy(stdout);
    log_engine_text(state, out.as_str(), elapsed_ms);
    let err = decode_lossy(stderr);
    log_engine_text(state, err.as_str(), elapsed_ms);
}

} // verus!
