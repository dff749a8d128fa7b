//! The decisions of one blocking key read, as a state machine: the caller
//! performs each [`Action`] against the terminal and feeds back what happened
//! as an [`Event`]. The machine saves the terminal mode, installs raw mode,
//! drains stale input, reads one key and puts the saved mode back on every
//! path that changed it.
use vstd::prelude::*;
use crate::inputs::{
    KeyCode, ConsoleRecord, stream_key, console_key, fallback_key, decode_stream_value,
    decode_console_record, decode_fallback_byte,
};

verus! {

/// Which kind of terminal input the session drives.
#[derive(Debug, Clone, Copy, PartialEq, Eq, Structural)]
pub enum Backend {
    /// A console that delivers structured input records and flushes its
    /// queue in one call.
    Console,
    /// A line-discipline terminal that delivers a byte stream.
    Stream,
}

/// Console mode bit for line-buffered input.
pub const CONSOLE_LINE_INPUT: u32 = 0x0002;
/// Console mode bit for echoed input.
pub const CONSOLE_ECHO_INPUT: u32 = 0x0004;
/// Local-mode flag for canonical (line) processing.
pub const STREAM_ICANON: u32 = 0o0000002;
/// Local-mode flag for echo.
pub const STREAM_ECHO: u32 = 0o0000010;

/// The mode flags that raw mode clears on a backend.
pub open spec fn canonical_bits(b: Backend) -> u32 {
    match b {
        Backend::Console => CONSOLE_LINE_INPUT | CONSOLE_ECHO_INPUT,
        Backend::Stream => STREAM_ICANON | STREAM_ECHO,
    }
}

/// The mode derived from `m` with line processing and echo switched off and
/// every other flag kept.
pub open spec fn raw_mode(b: Backend, m: u32) -> u32 {
    m & !canonical_bits(b)
}

/// Raw mode clears exactly the line-processing and echo flags: both are off
/// in it, and every other flag is as it was.
pub proof fn lemma_raw_mode_bits(b: Backend, m: u32)
    ensures
        raw_mode(b, m) & canonical_bits(b) == 0,
        raw_mode(b, m) | canonical_bits(b) == m | canonical_bits(b),
{
    let c = canonical_bits(b);
    assert(m & !c & c == 0) by (bit_vector);
    assert((m & !c) | c == m | c) by (bit_vector);
}

/// What the caller is asked to do next.
#[derive(Debug, Clone, Copy, PartialEq, Eq, Structural)]
pub enum Action {
    /// Obtain the standard input device.
    AcquireInput,
    /// Read the terminal's current mode flags.
    ReadMode,
    /// Install these mode flags.
    WriteMode(u32),
    /// Discard every queued console input record at once.
    DiscardQueued,
    /// Check, without blocking, whether input bytes are pending.
    PollPending,
    /// Read one pending byte and drop it.
    DiscardByte,
    /// Block until one console input record arrives.
    ReadRecord,
    /// Block for one read of up to eight bytes.
    ReadValue,
    /// Read one byte from the plain input stream.
    ReadFallbackByte,
    /// The read is over; this is its key.
    Finish(KeyCode),
}

/// What happened when the caller performed the last action.
#[derive(Debug, Clone, Copy, PartialEq, Eq, Structural)]
pub enum Event {
    /// The input device was obtained.
    InputAcquired,
    /// The input device could not be obtained.
    InputUnavailable,
    /// The terminal's mode flags.
    ModeRead(u32),
    /// The mode could not be read.
    ModeUnreadable,
    /// The mode was installed.
    ModeWritten,
    /// Installing the mode failed.
    ModeRejected,
    /// The console input queue was emptied.
    QueueDiscarded,
    /// Input bytes are pending.
    Pending,
    /// No input bytes are pending.
    NothingPending,
    /// The readiness check failed.
    PollFailed,
    /// One pending byte was read and dropped.
    ByteDiscarded,
    /// One console input record arrived.
    Record(ConsoleRecord),
    /// Reading a console record failed or returned none.
    RecordFailed,
    /// The integer assembled from one stream read, zero-filled where fewer
    /// than eight bytes (or none) arrived.
    Value(u64),
    /// The byte of the degraded read, zero where nothing was read.
    FallbackByte(u8),
}

/// Where a session stands; `saved` is the mode found before raw mode.
#[derive(Debug, Clone, Copy, PartialEq, Eq, Structural)]
pub enum Phase {
    AwaitInput,
    AwaitMode,
    AwaitRaw { saved: u32 },
    AwaitQueueDiscard { saved: u32 },
    AwaitPoll { saved: u32 },
    AwaitDiscard { saved: u32 },
    AwaitRecord { saved: u32 },
    AwaitValue { saved: u32 },
    AwaitFallback { saved: u32 },
    AwaitRestore { saved: u32, key: KeyCode },
    Done { key: KeyCode },
}

/// One blocking key read in progress.
#[derive(Debug, Clone, Copy, PartialEq, Eq, Structural)]
pub struct ReadKeySession {
    pub backend: Backend,
    pub phase: Phase,
}

/// The action a session in phase `p` is waiting on; it is asked again when an
/// event that does not answer it comes in. While a discard is outstanding any
/// event leads back to a readiness check, so that no byte is read without one.
pub open spec fn awaited(b: Backend, p: Phase) -> Action {
    match p {
        Phase::AwaitInput => Action::AcquireInput,
        Phase::AwaitMode => Action::ReadMode,
        Phase::AwaitRaw { saved } => Action::WriteMode(raw_mode(b, saved)),
        Phase::AwaitQueueDiscard { .. } => Action::DiscardQueued,
        Phase::AwaitPoll { .. } => Action::PollPending,
        Phase::AwaitDiscard { .. } => Action::DiscardByte,
        Phase::AwaitRecord { .. } => Action::ReadRecord,
        Phase::AwaitValue { .. } => Action::ReadValue,
        Phase::AwaitFallback { .. } => Action::ReadFallbackByte,
        Phase::AwaitRestore { saved, .. } => Action::WriteMode(saved),
        Phase::Done { key } => Action::Finish(key),
    }
}

/// The session with phase `p`, and the action that phase waits on.
pub open spec fn enter(b: Backend, p: Phase) -> (ReadKeySession, Action) {
    (ReadKeySession { backend: b, phase: p }, awaited(b, p))
}

/// The phase that follows restoring `saved` once `key` is known.
pub open spec fn restore_with(b: Backend, saved: u32, key: KeyCode) -> (ReadKeySession, Action) {
    enter(b, Phase::AwaitRestore { saved, key })
}

/// The transition table: the next session and action for event `e`.
pub open spec fn transition(s: ReadKeySession, e: Event) -> (ReadKeySession, Action) {
    let b = s.backend;
    match s.phase {
        Phase::AwaitInput => match e {
            Event::InputAcquired => enter(b, Phase::AwaitMode),
            Event::InputUnavailable => enter(b, Phase::Done { key: KeyCode::Error }),
            _ => (s, awaited(b, s.phase)),
        },
        Phase::AwaitMode => match e {
            Event::ModeRead(m) => enter(b, Phase::AwaitRaw { saved: m }),
            Event::ModeUnreadable => enter(b, Phase::Done { key: KeyCode::Error }),
            _ => (s, awaited(b, s.phase)),
        },
        Phase::AwaitRaw { saved } => match e {
            Event::ModeWritten => match b {
                Backend::Console => enter(b, Phase::AwaitQueueDiscard { saved }),
                Backend::Stream => enter(b, Phase::AwaitPoll { saved }),
            },
            Event::ModeRejected => restore_with(b, saved, KeyCode::Error),
            _ => (s, awaited(b, s.phase)),
        },
        Phase::AwaitQueueDiscard { saved } => match e {
            Event::QueueDiscarded => enter(b, Phase::AwaitRecord { saved }),
            _ => (s, awaited(b, s.phase)),
        },
        Phase::AwaitPoll { saved } => match e {
            Event::Pending => enter(b, Phase::AwaitDiscard { saved }),
            Event::NothingPending => enter(b, Phase::AwaitValue { saved }),
            Event::PollFailed => enter(b, Phase::AwaitValue { saved }),
            _ => (s, awaited(b, s.phase)),
        },
        Phase::AwaitDiscard { saved } => enter(b, Phase::AwaitPoll { saved }),
        Phase::AwaitRecord { saved } => match e {
            Event::Record(r) => match console_key(r) {
                Some(k) => restore_with(b, saved, k),
                None => (s, Action::ReadRecord),
            },
            Event::RecordFailed => enter(b, Phase::AwaitFallback { saved }),
            _ => (s, awaited(b, s.phase)),
        },
        Phase::AwaitValue { saved } => match e {
            Event::Value(v) => restore_with(b, saved, stream_key(v)),
            _ => (s, awaited(b, s.phase)),
        },
        Phase::AwaitFallback { saved } => match e {
            Event::FallbackByte(x) => restore_with(b, saved, fallback_key(x)),
            _ => (s, awaited(b, s.phase)),
        },
        Phase::AwaitRestore { key, .. } => enter(b, Phase::Done { key }),
        Phase::Done { .. } => (s, awaited(b, s.phase)),
    }
}

impl ReadKeySession {
    /// Starts a read on backend `b`; the first action obtains the input device.
    pub fn begin(b: Backend) -> (r: (ReadKeySession, Action))
        ensures
            r == enter(b, Phase::AwaitInput),
    {
        (ReadKeySession { backend: b, phase: Phase::AwaitInput }, Action::AcquireInput)
    }

    /// The action the session currently waits on.
    pub fn pending_action(&self) -> (a: Action)
        ensures
            a == awaited(self.backend, self.phase),
    {
        match self.phase {
            Phase::AwaitInput => Action::AcquireInput,
            Phase::AwaitMode => Action::ReadMode,
            Phase::AwaitRaw { saved } => Action::WriteMode(raw_mode_of(self.backend, saved)),
            Phase::AwaitQueueDiscard { .. } => Action::DiscardQueued,
            Phase::AwaitPoll { .. } => Action::PollPending,
            Phase::AwaitDiscard { .. } => Action::DiscardByte,
            Phase::AwaitRecord { .. } => Action::ReadRecord,
            Phase::AwaitValue { .. } => Action::ReadValue,
            Phase::AwaitFallback { .. } => Action::ReadFallbackByte,
            Phase::AwaitRestore { saved, .. } => Action::WriteMode(saved),
            Phase::Done { key } => Action::Finish(key),
        }
    }

    fn go(&mut self, p: Phase) -> (a: Action)
        ensures
            (*final(self), a) == enter(old(self).backend, p),
    {
        self.phase = p;
        self.pending_action()
    }

    /// Feeds the outcome of the last action and returns the next one.
    pub fn step(&mut self, e: Event) -> (a: Action)
        ensures
            (*final(self), a) == transition(*old(self), e),
    {
        let b = self.backend;
        match self.phase {
            Phase::AwaitInput => match e {
                Event::InputAcquired => self.go(Phase::AwaitMode),
                Event::InputUnavailable => self.go(Phase::Done { key: KeyCode::Error }),
                _ => self.pending_action(),
            },
            Phase::AwaitMode => match e {
                Event::ModeRead(m) => self.go(Phase::AwaitRaw { saved: m }),
                Event::ModeUnreadable => self.go(Phase::Done { key: KeyCode::Error }),
                _ => self.pending_action(),
            },
            Phase::AwaitRaw { saved } => match e {
                Event::ModeWritten => match b {
                    Backend::Console => self.go(Phase::AwaitQueueDiscard { saved }),
                    Backend::Stream => self.go(Phase::AwaitPoll { saved }),
                },
                Event::ModeRejected => self.go(Phase::AwaitRestore { saved, key: KeyCode::Error }),
                _ => self.pending_action(),
            },
            Phase::AwaitQueueDiscard { saved } => match e {
                Event::QueueDiscarded => self.go(Phase::AwaitRecord { saved }),
                _ => self.pending_action(),
            },
            Phase::AwaitPoll { saved } => match e {
                Event::Pending => self.go(Phase::AwaitDiscard { saved }),
                Event::NothingPending => self.go(Phase::AwaitValue { saved }),
                Event::PollFailed => self.go(Phase::AwaitValue { saved }),
                _ => self.pending_action(),
            },
            Phase::AwaitDiscard { saved } => self.go(Phase::AwaitPoll { saved }),
            Phase::AwaitRecord { saved } => match e {
                Event::Record(r) => match decode_console_record(&r) {
                    Some(k) => self.go(Phase::AwaitRestore { saved, key: k }),
                    None => Action::ReadRecord,
                },
                Event::RecordFailed => self.go(Phase::AwaitFallback { saved }),
                _ => self.pending_action(),
            },
            Phase::AwaitValue { saved } => match e {
                Event::Value(v) => {
                    let k = decode_stream_value(v);
                    self.go(Phase::AwaitRestore { saved, key: k })
                },
                _ => self.pending_action(),
            },
            Phase::AwaitFallback { saved } => match e {
                Event::FallbackByte(x) => {
                    let k = decode_fallback_byte(x);
                    self.go(Phase::AwaitRestore { saved, key: k })
                },
                _ => self.pending_action(),
            },
            Phase::AwaitRestore { key, .. } => self.go(Phase::Done { key }),
            Phase::Done { .. } => self.pending_action(),
        }
    }
}

/// The raw form of mode `m` on backend `b`.
pub fn raw_mode_of(b: Backend, m: u32) -> (r: u32)
    ensures
        r == raw_mode(b, m),
{
    match b {
        Backend::Console => m & !(CONSOLE_LINE_INPUT | CONSOLE_ECHO_INPUT),
        Backend::Stream => m & !(STREAM_ICANON | STREAM_ECHO),
    }
}


/// The mode in effect once the terminal has performed `a` on mode `m`.
pub open spec fn mode_after(m: u32, a: Action) -> u32 {
    match a {
        Action::WriteMode(x) => x,
        _ => m,
    }
}

/// The number of pending input bytes once the terminal has performed `a`.
pub open spec fn pending_after(p: nat, a: Action) -> nat {
    match a {
        Action::DiscardByte => if p > 0 {
            (p - 1) as nat
        } else {
            0
        },
        _ => p,
    }
}

/// `e` agrees with a terminal in mode `m` with `p` input bytes pending: a mode
/// read reports the mode in effect, and a readiness check reports whether
/// anything is pending. Failures may be reported at any time.
pub open spec fn truthful(e: Event, m: u32, p: nat) -> bool {
    &&& (e matches Event::ModeRead(x) ==> x == m)
    &&& (e is Pending ==> p > 0)
    &&& (e is NothingPending ==> p == 0)
}

/// The session, terminal mode and pending count after feeding `evs`.
pub open spec fn run(s: ReadKeySession, evs: Seq<Event>, m: u32, p: nat) -> (
    ReadKeySession,
    u32,
    nat,
)
    decreases evs.len(),
{
    if evs.len() == 0 {
        (s, m, p)
    } else {
        let (s1, a) = transition(s, evs[0]);
        run(s1, evs.drop_first(), mode_after(m, a), pending_after(p, a))
    }
}

/// Every event of `evs` agrees with the terminal as the session left it.
pub open spec fn truthful_run(s: ReadKeySession, evs: Seq<Event>, m: u32, p: nat) -> bool
    decreases evs.len(),
{
    evs.len() == 0 || {
        let (s1, a) = transition(s, evs[0]);
        &&& truthful(evs[0], m, p)
        &&& truthful_run(s1, evs.drop_first(), mode_after(m, a), pending_after(p, a))
    }
}

/// How many mode writes the session asks for while `evs` are fed.
pub open spec fn writes_in(s: ReadKeySession, evs: Seq<Event>) -> nat
    decreases evs.len(),
{
    if evs.len() == 0 {
        0
    } else {
        let (s1, a) = transition(s, evs[0]);
        (if a is WriteMode { 1nat } else { 0nat }) + writes_in(s1, evs.drop_first())
    }
}

/// How many bytes the session asks to discard while `evs` are fed.
pub open spec fn discards_in(s: ReadKeySession, evs: Seq<Event>) -> nat
    decreases evs.len(),
{
    if evs.len() == 0 {
        0
    } else {
        let (s1, a) = transition(s, evs[0]);
        (if a is DiscardByte { 1nat } else { 0nat }) + discards_in(s1, evs.drop_first())
    }
}

/// The first state of a read on backend `b`.
pub open spec fn initial(b: Backend) -> ReadKeySession {
    enter(b, Phase::AwaitInput).0
}

/// Relates a session to the mode `m0` found at the start and the mode `cur`
/// in effect: before the mode is read nothing was written; once read, the
/// saved mode is `m0` and raw mode is in effect until the restore is asked
/// for; after that `m0` is in effect again.
pub open spec fn guard_holds(s: ReadKeySession, m0: u32, cur: u32) -> bool {
    let raw = raw_mode(s.backend, m0);
    match s.phase {
        Phase::AwaitInput => cur == m0,
        Phase::AwaitMode => cur == m0,
        Phase::AwaitRaw { saved } => saved == m0 && cur == raw,
        Phase::AwaitQueueDiscard { saved } => saved == m0 && cur == raw,
        Phase::AwaitPoll { saved } => saved == m0 && cur == raw,
        Phase::AwaitDiscard { saved } => saved == m0 && cur == raw,
        Phase::AwaitRecord { saved } => saved == m0 && cur == raw,
        Phase::AwaitValue { saved } => saved == m0 && cur == raw,
        Phase::AwaitFallback { saved } => saved == m0 && cur == raw,
        Phase::AwaitRestore { saved, .. } => saved == m0 && cur == m0,
        Phase::Done { .. } => cur == m0,
    }
}

proof fn lemma_guard_run(s: ReadKeySession, evs: Seq<Event>, m0: u32, cur: u32, p: nat)
    requires
        guard_holds(s, m0, cur),
        truthful_run(s, evs, cur, p),
    ensures
        guard_holds(run(s, evs, cur, p).0, m0, run(s, evs, cur, p).1),
        run(s, evs, cur, p).0.backend == s.backend,
    decreases evs.len(),
{
    if evs.len() > 0 {
        let (s1, a) = transition(s, evs[0]);
        lemma_guard_run(s1, evs.drop_first(), m0, mode_after(cur, a), pending_after(p, a));
    }
}

/// The terminal's mode is restored: whatever the terminal reports (failures
/// included), as long as a mode read reports the mode in effect, a read that
/// has finished leaves the terminal in exactly the mode it found, whichever
/// key, fallback or error path it took.
pub proof fn lemma_mode_restored(b: Backend, evs: Seq<Event>, m: u32, p: nat)
    requires
        truthful_run(initial(b), evs, m, p),
    ensures
        run(initial(b), evs, m, p).0.phase is Done ==> run(initial(b), evs, m, p).1 == m,
{
    lemma_guard_run(initial(b), evs, m, m, p);
}

/// A session blocked in a read (a console record, a stream read, or the
/// degraded single-byte read) has raw mode in effect: the mode it found with
/// exactly the line-processing and echo flags cleared.
pub proof fn lemma_raw_while_reading(b: Backend, evs: Seq<Event>, m: u32, p: nat)
    requires
        truthful_run(initial(b), evs, m, p),
    ensures
        ({
            let (s, cur, _) = run(initial(b), evs, m, p);
            (s.phase is AwaitRecord || s.phase is AwaitValue || s.phase is AwaitFallback) ==> {
                &&& cur == raw_mode(b, m)
                &&& cur & canonical_bits(b) == 0
                &&& cur | canonical_bits(b) == m | canonical_bits(b)
            }
        }),
{
    lemma_guard_run(initial(b), evs, m, m, p);
    lemma_raw_mode_bits(b, m);
}

proof fn lemma_done_stays(s: ReadKeySession, evs: Seq<Event>, m: u32, p: nat)
    requires
        s.phase is Done,
    ensures
        run(s, evs, m, p) == (s, m, p),
        writes_in(s, evs) == 0,
    decreases evs.len(),
{
    if evs.len() > 0 {
        lemma_done_stays(s, evs.drop_first(), m, p);
    }
}

/// An input device that cannot be obtained ends the read with
/// `KeyCode::Error`, and no mode is ever written: neither raw mode nor a
/// restore, since nothing was changed.
pub proof fn lemma_unavailable_input(b: Backend, evs: Seq<Event>, m: u32, p: nat)
    requires
        evs.len() > 0,
        evs[0] == Event::InputUnavailable,
    ensures
        run(initial(b), evs, m, p) == (
            ReadKeySession { backend: b, phase: Phase::Done { key: KeyCode::Error } },
            m,
            p,
        ),
        writes_in(initial(b), evs) == 0,
{
    let s1 = ReadKeySession { backend: b, phase: Phase::Done { key: KeyCode::Error } };
    lemma_done_stays(s1, evs.drop_first(), m, p);
}

/// A key-down record without a character whose virtual key code is not an
/// arrow, a key release, and a record of another event kind produce no result:
/// the session stays where it is and asks for the next record.
pub proof fn lemma_unmapped_record_skipped(saved: u32, r: ConsoleRecord)
    requires
        r.event_type != crate::inputs::KEY_EVENT || !r.key_down || (r.character_data == 0
            && r.virtual_keycode != crate::inputs::VK_LEFT && r.virtual_keycode
            != crate::inputs::VK_UP && r.virtual_keycode != crate::inputs::VK_RIGHT
            && r.virtual_keycode != crate::inputs::VK_DOWN),
    ensures
        ({
            let s = ReadKeySession { backend: Backend::Console, phase: Phase::AwaitRecord { saved } };
            transition(s, Event::Record(r)) == (s, Action::ReadRecord)
        }),
{
}

/// The console session waiting for an input record.
pub open spec fn awaiting_record(saved: u32) -> ReadKeySession {
    ReadKeySession { backend: Backend::Console, phase: Phase::AwaitRecord { saved } }
}

/// `e` is a console record that decodes to no key.
pub open spec fn skipped_record(e: Event) -> bool {
    e matches Event::Record(r) && console_key(r) is None
}

/// A run of records is read to its first decodable one: records that decode
/// to no key (other events, key releases, key presses without a character or
/// an arrow code) each ask only for the next record, and the first record
/// that decodes gives the key, which is its decoding alone; the only mode
/// write asked for is the restore.
pub proof fn lemma_records_until_key(
    saved: u32,
    evs: Seq<Event>,
    r: ConsoleRecord,
    m: u32,
    p: nat,
)
    requires
        evs.len() > 0,
        forall|i: int| 0 <= i < evs.len() - 1 ==> skipped_record(#[trigger] evs[i]),
        evs.last() == Event::Record(r),
        console_key(r) is Some,
    ensures
        run(awaiting_record(saved), evs, m, p) == (
            ReadKeySession {
                backend: Backend::Console,
                phase: Phase::AwaitRestore { saved, key: console_key(r)->0 },
            },
            saved,
            p,
        ),
        writes_in(awaiting_record(saved), evs) == 1,
    decreases evs.len(),
{
    let s = awaiting_record(saved);
    if evs.len() == 1 {
        let done = ReadKeySession {
            backend: Backend::Console,
            phase: Phase::AwaitRestore { saved, key: console_key(r)->0 },
        };
        assert(evs.drop_first().len() == 0);
        assert(run(done, evs.drop_first(), saved, p) == (done, saved, p));
        assert(writes_in(done, evs.drop_first()) == 0);
    } else {
        assert(skipped_record(evs[0]));
        let rest = evs.drop_first();
        assert forall|i: int| 0 <= i < rest.len() - 1 implies skipped_record(#[trigger] rest[i]) by {
            assert(rest[i] == evs[i + 1]);
        }
        assert(rest.last() == evs.last());
        lemma_records_until_key(saved, rest, r, m, p);
    }
}

/// The stream session at the start of its flush.
pub open spec fn flushing(saved: u32) -> ReadKeySession {
    ReadKeySession { backend: Backend::Stream, phase: Phase::AwaitPoll { saved } }
}

/// Relates a session in or after its flush to the `p0` bytes pending when
/// the flush began, the `n` bytes discarded since and the `p` still pending.
pub open spec fn drain_holds(s: ReadKeySession, p0: nat, n: nat, p: nat) -> bool {
    &&& s.backend is Stream
    &&& match s.phase {
        Phase::AwaitPoll { .. } => n + p == p0,
        Phase::AwaitDiscard { .. } => n + p == p0,
        Phase::AwaitValue { .. } => n == p0 && p == 0,
        Phase::AwaitRestore { .. } => n == p0 && p == 0,
        Phase::Done { .. } => n == p0 && p == 0,
        _ => false,
    }
}

proof fn lemma_drain_run(s: ReadKeySession, evs: Seq<Event>, m: u32, p0: nat, n: nat, p: nat)
    requires
        drain_holds(s, p0, n, p),
        truthful_run(s, evs, m, p),
        forall|i: int| 0 <= i < evs.len() ==> evs[i] != Event::PollFailed,
    ensures
        drain_holds(run(s, evs, m, p).0, p0, n + discards_in(s, evs), run(s, evs, m, p).2),
    decreases evs.len(),
{
    if evs.len() > 0 {
        let (s1, a) = transition(s, evs[0]);
        let rest = evs.drop_first();
        assert forall|i: int| 0 <= i < rest.len() implies rest[i] != Event::PollFailed by {
            assert(rest[i] == evs[i + 1]);
        }
        let n1 = n + (if a is DiscardByte { 1nat } else { 0nat });
        lemma_drain_run(s1, rest, mode_after(m, a), p0, n1, pending_after(p, a));
    }
}

/// Flushing is exhaustive: when no readiness check fails, the stream session
/// asks for the key read only once nothing is pending, having discarded
/// exactly the bytes that were queued when the flush began.
pub proof fn lemma_flush_drains(saved: u32, evs: Seq<Event>, m: u32, p: nat)
    requires
        truthful_run(flushing(saved), evs, m, p),
        forall|i: int| 0 <= i < evs.len() ==> evs[i] != Event::PollFailed,
        run(flushing(saved), evs, m, p).0.phase is AwaitValue,
    ensures
        run(flushing(saved), evs, m, p).2 == 0,
        discards_in(flushing(saved), evs) == p,
{
    lemma_drain_run(flushing(saved), evs, m, p, 0, p);
}

/// Flushing is idempotent: a flush that finds nothing pending discards nothing
/// and leaves the queue empty, so a flush right after a completed flush
/// changes nothing.
pub proof fn lemma_flush_idempotent(saved: u32, evs: Seq<Event>, m: u32)
    requires
        truthful_run(flushing(saved), evs, m, 0),
        forall|i: int| 0 <= i < evs.len() ==> evs[i] != Event::PollFailed,
        run(flushing(saved), evs, m, 0).0.phase is AwaitValue,
    ensures
        run(flushing(saved), evs, m, 0).2 == 0,
        discards_in(flushing(saved), evs) == 0,
{
    lemma_flush_drains(saved, evs, m, 0);
}

} // verus!
