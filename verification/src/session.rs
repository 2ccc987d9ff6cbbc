//! The relay state machine at the heart of the recorder.
//!
//! The platform layer owns the pseudo-terminal, the child process and the
//! real files; it feeds every event it observes (bytes read from either
//! stream, the child's status, end-of-stream, the flush request) into a
//! [`Session`], which keeps the byte model of every log sink, enforces the
//! output limit, records the child's exit status, and decides when the
//! session ends.  Each sink is modelled as the bytes written to it together
//! with how much of them has been flushed, so flushing guarantees are part
//! of the contracts.

use vstd::prelude::*;

use crate::options::{LogFormat, ScriptOptions, spec_logs_conflict};
use crate::timing::{Direction, build_timing_line, timing_line};

verus! {

/// Does `haystack` contain `needle` as a contiguous run of bytes?
pub open spec fn contains_bytes(haystack: Seq<u8>, needle: Seq<u8>) -> bool {
    exists|i: int|
        0 <= i && i + needle.len() <= haystack.len() && #[trigger] haystack.subrange(
            i,
            i + needle.len(),
        ) == needle
}

/// A contiguous run found in `b` is found in `a + b` as well.
pub proof fn lemma_contains_in_extension(a: Seq<u8>, b: Seq<u8>, needle: Seq<u8>)
    requires
        contains_bytes(b, needle),
    ensures
        contains_bytes(a + b, needle),
{
    let i = choose|i: int|
        0 <= i && i + needle.len() <= b.len() && #[trigger] b.subrange(i, i + needle.len()) == needle;
    assert((a + b).subrange(a.len() + i, a.len() + i + needle.len()) =~= needle);
}

/// One byte sink: everything written to it, and how much of that has been
/// flushed to durable storage.
pub struct SinkBuf {
    pub data: Vec<u8>,
    pub flushed: usize,
}

impl SinkBuf {
    pub open spec fn wf(&self) -> bool {
        self.flushed <= self.data@.len()
    }

    /// Bytes written but not yet flushed.
    pub open spec fn pending(&self) -> Seq<u8> {
        self.data@.subrange(self.flushed as int, self.data@.len() as int)
    }

    pub fn empty() -> (r: SinkBuf)
        ensures
            r.data@ == Seq::<u8>::empty(),
            r.flushed == 0,
            r.wf(),
    {
        SinkBuf { data: Vec::new(), flushed: 0 }
    }

    /// A sink opened over `initial`, its contents before the session, which
    /// are already durable.
    pub fn with_initial(initial: Vec<u8>) -> (r: SinkBuf)
        ensures
            r.data@ == initial@,
            r.flushed == initial@.len(),
            r.wf(),
    {
        let flushed = initial.len();
        SinkBuf { data: initial, flushed }
    }

    /// Write `bytes`, flushing afterwards when `flush_now` is set.
    pub fn append(&mut self, bytes: &[u8], flush_now: bool)
        requires
            old(self).wf(),
        ensures
            final(self).data@ == old(self).data@ + bytes@,
            flush_now ==> final(self).flushed == final(self).data@.len(),
            !flush_now ==> final(self).flushed == old(self).flushed,
            final(self).wf(),
    {
        append_bytes(&mut self.data, bytes);
        if flush_now {
            self.flushed = self.data.len();
        }
    }

    pub fn flush(&mut self)
        ensures
            final(self).data@ == old(self).data@,
            final(self).flushed == final(self).data@.len(),
            final(self).pending() == Seq::<u8>::empty(),
            final(self).wf(),
    {
        self.flushed = self.data.len();
        assert(final(self).pending() =~= Seq::<u8>::empty());
    }
}

/// Append a byte slice to a vector.
pub(crate) fn append_bytes(dst: &mut Vec<u8>, bytes: &[u8])
    ensures
        final(dst)@ == old(dst)@ + bytes@,
{
    let mut i: usize = 0;
    while i < bytes.len()
        invariant
            i <= bytes@.len(),
            dst@ == old(dst)@ + bytes@.subrange(0, i as int),
        decreases bytes@.len() - i,
    {
        dst.push(bytes[i]);
        i = i + 1;
        assert(dst@ =~= old(dst)@ + bytes@.subrange(0, i as int));
    }
    assert(bytes@.subrange(0, bytes@.len() as int) =~= bytes@);
}

/// The set of output destinations.  The transcript is mandatory; each other
/// sink exists exactly when its `has_` flag is set, and its buffer is
/// meaningful only then.
pub struct SinkSet {
    pub transcript: SinkBuf,
    pub has_input_log: bool,
    pub input_log: SinkBuf,
    pub has_output_log: bool,
    pub output_log: SinkBuf,
    pub has_combined_log: bool,
    pub combined_log: SinkBuf,
    pub has_timing_log: bool,
    pub timing_log: SinkBuf,
}

impl SinkSet {
    pub open spec fn wf(&self) -> bool {
        &&& self.transcript.wf()
        &&& self.input_log.wf()
        &&& self.output_log.wf()
        &&& self.combined_log.wf()
        &&& self.timing_log.wf()
    }
}

/// `post` is `pre` with `bytes` written, flushed afterwards iff `flush_now`.
pub open spec fn sink_appended(pre: SinkBuf, post: SinkBuf, bytes: Seq<u8>, flush_now: bool) -> bool {
    &&& post.data@ == pre.data@ + bytes
    &&& (flush_now ==> post.flushed == post.data@.len())
    &&& (!flush_now ==> post.flushed == pre.flushed)
}

/// The child's reported status, observed by a non-blocking check.
#[derive(Debug, Clone, Copy, PartialEq, Eq, Structural)]
pub enum ChildStatus {
    StillRunning,
    /// Exited normally with this code.
    Exited(i32),
    /// Terminated by this signal number.
    Signaled(i32),
}

/// The timing records of a session, in order: direction, elapsed
/// microseconds, byte count.
pub open spec fn concat_timing_lines(format: LogFormat, ts: Seq<(Direction, nat, nat)>) -> Seq<u8>
    decreases ts.len(),
{
    if ts.len() == 0 {
        Seq::empty()
    } else {
        concat_timing_lines(format, ts.drop_last()) + timing_line(
            format,
            ts.last().0,
            ts.last().1,
            ts.last().2,
        )
    }
}

pub proof fn lemma_concat_timing_lines_push(
    format: LogFormat,
    ts: Seq<(Direction, nat, nat)>,
    t: (Direction, nat, nat),
)
    ensures
        concat_timing_lines(format, ts.push(t)) == concat_timing_lines(format, ts) + timing_line(
            format,
            t.0,
            t.1,
            t.2,
        ),
{
    assert(ts.push(t).drop_last() =~= ts);
    assert(ts.push(t).last() == t);
}

/// `n` capped at the largest `u64`.
pub open spec fn cap_u64(n: nat) -> nat {
    if n > u64::MAX as nat {
        u64::MAX as nat
    } else {
        n
    }
}

/// One recording session on the parent side: configuration, the model of
/// every sink, the output byte counter, and the child's recorded status.
pub struct Session {
    pub format: LogFormat,
    pub flush_every_write: bool,
    pub output_limit: Option<u64>,
    pub sinks: SinkSet,
    /// Bytes relayed from the child to the caller so far, saturating.
    pub total_output_bytes: u64,
    /// Monotonic timestamp of the previous transfer, microseconds.
    pub last_transfer_micros: u64,
    /// The child's exit status once observed: its exit code, or 128 plus the
    /// signal number when a signal terminated it.
    pub exit_status: i32,
    pub child_exited: bool,
    /// The output limit was met and the child's termination was requested.
    pub limit_hit: bool,
    /// No further transfers are relayed.
    pub ended: bool,
    /// Everything the child has written this session, in order.
    pub child_output: Ghost<Seq<u8>>,
    /// Everything the caller has typed this session, in order.
    pub caller_input: Ghost<Seq<u8>>,
    /// Transcript contents found at session start.
    pub transcript_initial: Ghost<Seq<u8>>,
    /// Timing-log contents found at session start.
    pub timing_initial: Ghost<Seq<u8>>,
    /// The timing records of this session's transfers, in order.
    pub timing_transfers: Ghost<Seq<(Direction, nat, nat)>>,
    /// Size of the most recent output transfer.
    pub last_output_chunk: Ghost<nat>,
}

impl Session {
    /// The session invariant: the transcript is exactly its initial contents
    /// followed by everything the child wrote; the timing log is its initial
    /// contents followed by one line per transfer; the byte counter tracks
    /// the child's output; and while the session is running with a limit the
    /// counter has not reached it, so the transcript can overshoot the limit
    /// by at most one transfer.
    pub open spec fn wf(&self) -> bool {
        &&& self.sinks.wf()
        &&& self.sinks.transcript.data@ == self.transcript_initial@ + self.child_output@
        &&& (self.sinks.has_timing_log ==> self.sinks.timing_log.data@ == self.timing_initial@
            + concat_timing_lines(self.format, self.timing_transfers@))
        &&& (self.sinks.has_input_log ==> self.sinks.input_log.data@ == self.caller_input@)
        &&& (self.sinks.has_output_log ==> self.sinks.output_log.data@ == self.child_output@)
        &&& self.total_output_bytes as nat == cap_u64(self.child_output@.len())
        &&& (!self.ended ==> (self.output_limit matches Some(l) ==> self.child_output@.len() < l
            || self.child_output@.len() == 0))
        &&& (self.output_limit matches Some(l) ==> self.child_output@.len() <= l
            + self.last_output_chunk@ && (l >= 1 && self.last_output_chunk@ > 0
            ==> self.child_output@.len() < l + self.last_output_chunk@))
        &&& (self.limit_hit ==> self.ended)
    }

    /// Open a session from the configuration.  `transcript_initial` and
    /// `timing_initial` are the bytes those two sinks already hold when they
    /// are opened for appending; they are empty for freshly truncated files.
    /// A conflicting log configuration was rejected before any sink was
    /// opened, so none reaches this point.
    pub fn start(opts: &ScriptOptions, transcript_initial: Vec<u8>, timing_initial: Vec<u8>) -> (s:
        Session)
        requires
            !spec_logs_conflict(*opts),
        ensures
            s.wf(),
            s.format == opts.logging_format,
            s.flush_every_write == opts.flush,
            s.output_limit == opts.output_limit,
            s.sinks.has_input_log == (opts.log_in_file is Some),
            s.sinks.has_output_log == (opts.log_out_file is Some),
            s.sinks.has_combined_log == (opts.log_io_file is Some),
            s.sinks.has_timing_log == (opts.log_timing_file is Some),
            s.sinks.transcript.data@ == transcript_initial@,
            s.transcript_initial@ == transcript_initial@,
            s.sinks.timing_log.data@ == timing_initial@,
            s.timing_initial@ == timing_initial@,
            s.sinks.input_log.data@ == Seq::<u8>::empty(),
            s.sinks.output_log.data@ == Seq::<u8>::empty(),
            s.sinks.combined_log.data@ == Seq::<u8>::empty(),
            s.child_output@ == Seq::<u8>::empty(),
            s.caller_input@ == Seq::<u8>::empty(),
            s.timing_transfers@ == Seq::<(Direction, nat, nat)>::empty(),
            s.total_output_bytes == 0,
            s.last_transfer_micros == 0,
            s.exit_status == 0,
            !s.child_exited,
            !s.ended,
            !s.limit_hit,
    {
        let ghost t_init = transcript_initial@;
        let ghost m_init = timing_initial@;
        let sinks = SinkSet {
            transcript: SinkBuf::with_initial(transcript_initial),
            has_input_log: opts.log_in_file.is_some(),
            input_log: SinkBuf::empty(),
            has_output_log: opts.log_out_file.is_some(),
            output_log: SinkBuf::empty(),
            has_combined_log: opts.log_io_file.is_some(),
            combined_log: SinkBuf::empty(),
            has_timing_log: opts.log_timing_file.is_some(),
            timing_log: SinkBuf::with_initial(timing_initial),
        };
        let s = Session {
            format: opts.logging_format,
            flush_every_write: opts.flush,
            output_limit: opts.output_limit,
            sinks,
            total_output_bytes: 0,
            last_transfer_micros: 0,
            exit_status: 0,
            child_exited: false,
            limit_hit: false,
            ended: false,
            child_output: Ghost(Seq::empty()),
            caller_input: Ghost(Seq::empty()),
            transcript_initial: Ghost(t_init),
            timing_initial: Ghost(m_init),
            timing_transfers: Ghost(Seq::empty()),
            last_output_chunk: Ghost(0nat),
        };
        assert(s.sinks.transcript.data@ =~= s.transcript_initial@ + s.child_output@);
        assert(s.sinks.timing_log.data@ =~= s.timing_initial@ + concat_timing_lines(
            s.format,
            s.timing_transfers@,
        ));
        s
    }

    /// Record the outcome of a non-blocking child-status check.  A normal
    /// exit records its code; termination by a signal records 128 plus the
    /// signal number.
    pub fn on_child_status(&mut self, status: ChildStatus)
        requires
            old(self).wf(),
            status matches ChildStatus::Signaled(sig) ==> 0 <= sig < 128,
        ensures
            final(self).wf(),
            status is StillRunning ==> final(self).child_exited == old(self).child_exited
                && final(self).exit_status == old(self).exit_status,
            status matches ChildStatus::Exited(code) ==> final(self).child_exited && final(self).exit_status == code,
            status matches ChildStatus::Signaled(sig) ==> final(self).child_exited && final(self).exit_status == 128 + sig,
            final(self).sinks == old(self).sinks,
            final(self).ended == old(self).ended,
            final(self).limit_hit == old(self).limit_hit,
            final(self).total_output_bytes == old(self).total_output_bytes,
            final(self).last_transfer_micros == old(self).last_transfer_micros,
            final(self).format == old(self).format,
            final(self).flush_every_write == old(self).flush_every_write,
            final(self).output_limit == old(self).output_limit,
            final(self).child_output == old(self).child_output,
            final(self).caller_input == old(self).caller_input,
            final(self).transcript_initial == old(self).transcript_initial,
            final(self).timing_initial == old(self).timing_initial,
            final(self).timing_transfers == old(self).timing_transfers,
            final(self).last_output_chunk == old(self).last_output_chunk,
    {
        match status {
            ChildStatus::StillRunning => {},
            ChildStatus::Exited(code) => {
                self.child_exited = true;
                self.exit_status = code;
            },
            ChildStatus::Signaled(sig) => {
                self.child_exited = true;
                self.exit_status = 128 + sig;
            },
        }
    }

    /// Consume a flush request: every open sink is flushed, so nothing that
    /// was pending when the request arrived can be lost afterwards.
    pub fn on_flush_request(&mut self)
        requires
            old(self).wf(),
        ensures
            final(self).wf(),
            final(self).sinks.transcript.data@ == old(self).sinks.transcript.data@,
            final(self).sinks.input_log.data@ == old(self).sinks.input_log.data@,
            final(self).sinks.output_log.data@ == old(self).sinks.output_log.data@,
            final(self).sinks.combined_log.data@ == old(self).sinks.combined_log.data@,
            final(self).sinks.timing_log.data@ == old(self).sinks.timing_log.data@,
            final(self).sinks.transcript.pending() == Seq::<u8>::empty(),
            final(self).sinks.input_log.pending() == Seq::<u8>::empty(),
            final(self).sinks.output_log.pending() == Seq::<u8>::empty(),
            final(self).sinks.combined_log.pending() == Seq::<u8>::empty(),
            final(self).sinks.timing_log.pending() == Seq::<u8>::empty(),
            final(self).sinks.has_input_log == old(self).sinks.has_input_log,
            final(self).sinks.has_output_log == old(self).sinks.has_output_log,
            final(self).sinks.has_combined_log == old(self).sinks.has_combined_log,
            final(self).sinks.has_timing_log == old(self).sinks.has_timing_log,
            final(self).ended == old(self).ended,
            final(self).limit_hit == old(self).limit_hit,
            final(self).child_exited == old(self).child_exited,
            final(self).exit_status == old(self).exit_status,
            final(self).total_output_bytes == old(self).total_output_bytes,
            final(self).last_transfer_micros == old(self).last_transfer_micros,
            final(self).format == old(self).format,
            final(self).flush_every_write == old(self).flush_every_write,
            final(self).output_limit == old(self).output_limit,
            final(self).child_output == old(self).child_output,
            final(self).caller_input == old(self).caller_input,
            final(self).transcript_initial == old(self).transcript_initial,
            final(self).timing_initial == old(self).timing_initial,
            final(self).timing_transfers == old(self).timing_transfers,
            final(self).last_output_chunk == old(self).last_output_chunk,
    {
        self.sinks.transcript.flush();
        self.sinks.input_log.flush();
        self.sinks.output_log.flush();
        self.sinks.combined_log.flush();
        self.sinks.timing_log.flush();
    }

    /// Relay one transfer of caller input: the bytes go verbatim to the
    /// child (the caller writes them to the pseudo-terminal), are mirrored
    /// to the input and combined logs, and produce one input timing line.
    /// `now_micros` is the monotonic timestamp of the transfer.
    pub fn on_input(&mut self, bytes: &[u8], now_micros: u64)
        requires
            old(self).wf(),
            !old(self).ended,
            bytes@.len() > 0,
            now_micros >= old(self).last_transfer_micros,
        ensures
            final(self).wf(),
            final(self).caller_input@ == old(self).caller_input@ + bytes@,
            old(self).sinks.has_input_log ==> sink_appended(
                old(self).sinks.input_log,
                final(self).sinks.input_log,
                bytes@,
                old(self).flush_every_write,
            ),
            !old(self).sinks.has_input_log ==> final(self).sinks.input_log == old(self).sinks.input_log,
            old(self).sinks.has_combined_log ==> sink_appended(
                old(self).sinks.combined_log,
                final(self).sinks.combined_log,
                bytes@,
                old(self).flush_every_write,
            ),
            !old(self).sinks.has_combined_log ==> final(self).sinks.combined_log == old(self).sinks.combined_log,
            old(self).sinks.has_timing_log ==> sink_appended(
                old(self).sinks.timing_log,
                final(self).sinks.timing_log,
                timing_line(
                    old(self).format,
                    Direction::Input,
                    (now_micros - old(self).last_transfer_micros) as nat,
                    bytes@.len(),
                ),
                old(self).flush_every_write,
            ),
            !old(self).sinks.has_timing_log ==> final(self).sinks.timing_log == old(self).sinks.timing_log,
            final(self).sinks.transcript == old(self).sinks.transcript,
            final(self).sinks.output_log == old(self).sinks.output_log,
            final(self).sinks.has_input_log == old(self).sinks.has_input_log,
            final(self).sinks.has_output_log == old(self).sinks.has_output_log,
            final(self).sinks.has_combined_log == old(self).sinks.has_combined_log,
            final(self).sinks.has_timing_log == old(self).sinks.has_timing_log,
            final(self).timing_transfers@ == old(self).timing_transfers@.push(
                (
                    Direction::Input,
                    (now_micros - old(self).last_transfer_micros) as nat,
                    bytes@.len(),
                ),
            ),
            final(self).last_transfer_micros == now_micros,
            final(self).ended == old(self).ended,
            final(self).limit_hit == old(self).limit_hit,
            final(self).child_exited == old(self).child_exited,
            final(self).exit_status == old(self).exit_status,
            final(self).total_output_bytes == old(self).total_output_bytes,
            final(self).format == old(self).format,
            final(self).flush_every_write == old(self).flush_every_write,
            final(self).output_limit == old(self).output_limit,
            final(self).child_output == old(self).child_output,
            final(self).transcript_initial == old(self).transcript_initial,
            final(self).timing_initial == old(self).timing_initial,
            final(self).last_output_chunk == old(self).last_output_chunk,
    {
        let elapsed = now_micros - self.last_transfer_micros;
        self.last_transfer_micros = now_micros;
        if self.sinks.has_input_log {
            self.sinks.input_log.append(bytes, self.flush_every_write);
        }
        if self.sinks.has_combined_log {
            self.sinks.combined_log.append(bytes, self.flush_every_write);
        }
        if self.sinks.has_timing_log {
            let line = build_timing_line(
                self.format,
                Direction::Input,
                elapsed,
                bytes.len() as u64,
            );
            self.sinks.timing_log.append(line.as_slice(), self.flush_every_write);
        }
        self.caller_input = Ghost(self.caller_input@ + bytes@);
        proof {
            lemma_concat_timing_lines_push(
                self.format,
                self.timing_transfers@,
                (Direction::Input, (now_micros - old(self).last_transfer_micros) as nat,
                bytes@.len()),
            );
        }
        self.timing_transfers = Ghost(
            self.timing_transfers@.push(
                (
                    Direction::Input,
                    (now_micros - old(self).last_transfer_micros) as nat,
                    bytes@.len(),
                ),
            ),
        );
        proof {
            if self.sinks.has_input_log {
                assert(self.sinks.input_log.data@ =~= self.caller_input@);
            }
            if self.sinks.has_timing_log {
                assert(self.sinks.timing_log.data@ =~= self.timing_initial@
                    + concat_timing_lines(self.format, self.timing_transfers@));
            }
        }
    }

    /// Relay one transfer of child output: the bytes go verbatim to the
    /// caller and to the transcript, are mirrored to the output and combined
    /// logs, produce one output timing line, and count toward the output
    /// limit.  Returns whether the limit was met, in which case the caller
    /// must request the child's termination and the session is over.
    pub fn on_output(&mut self, bytes: &[u8], now_micros: u64) -> (limit_reached: bool)
        requires
            old(self).wf(),
            !old(self).ended,
            bytes@.len() > 0,
            now_micros >= old(self).last_transfer_micros,
        ensures
            final(self).wf(),
            final(self).child_output@ == old(self).child_output@ + bytes@,
            sink_appended(
                old(self).sinks.transcript,
                final(self).sinks.transcript,
                bytes@,
                old(self).flush_every_write,
            ),
            old(self).sinks.has_output_log ==> sink_appended(
                old(self).sinks.output_log,
                final(self).sinks.output_log,
                bytes@,
                old(self).flush_every_write,
            ),
            !old(self).sinks.has_output_log ==> final(self).sinks.output_log == old(self).sinks.output_log,
            old(self).sinks.has_combined_log ==> sink_appended(
                old(self).sinks.combined_log,
                final(self).sinks.combined_log,
                bytes@,
                old(self).flush_every_write,
            ),
            !old(self).sinks.has_combined_log ==> final(self).sinks.combined_log == old(self).sinks.combined_log,
            old(self).sinks.has_timing_log ==> sink_appended(
                old(self).sinks.timing_log,
                final(self).sinks.timing_log,
                timing_line(
                    old(self).format,
                    Direction::Output,
                    (now_micros - old(self).last_transfer_micros) as nat,
                    bytes@.len(),
                ),
                old(self).flush_every_write,
            ),
            !old(self).sinks.has_timing_log ==> final(self).sinks.timing_log == old(self).sinks.timing_log,
            final(self).sinks.input_log == old(self).sinks.input_log,
            final(self).sinks.has_input_log == old(self).sinks.has_input_log,
            final(self).sinks.has_output_log == old(self).sinks.has_output_log,
            final(self).sinks.has_combined_log == old(self).sinks.has_combined_log,
            final(self).sinks.has_timing_log == old(self).sinks.has_timing_log,
            final(self).timing_transfers@ == old(self).timing_transfers@.push(
                (
                    Direction::Output,
                    (now_micros - old(self).last_transfer_micros) as nat,
                    bytes@.len(),
                ),
            ),
            final(self).last_transfer_micros == now_micros,
            final(self).total_output_bytes as nat == cap_u64(
                old(self).child_output@.len() + bytes@.len(),
            ),
            final(self).limit_hit == (old(self).output_limit matches Some(l) && final(self).total_output_bytes >= l),
            final(self).ended == final(self).limit_hit,
            limit_reached == final(self).limit_hit,
            final(self).last_output_chunk@ == bytes@.len(),
            final(self).child_exited == old(self).child_exited,
            final(self).exit_status == old(self).exit_status,
            final(self).format == old(self).format,
            final(self).flush_every_write == old(self).flush_every_write,
            final(self).output_limit == old(self).output_limit,
            final(self).caller_input == old(self).caller_input,
            final(self).transcript_initial == old(self).transcript_initial,
            final(self).timing_initial == old(self).timing_initial,
    {
        let elapsed = now_micros - self.last_transfer_micros;
        self.last_transfer_micros = now_micros;
        self.sinks.transcript.append(bytes, self.flush_every_write);
        if self.sinks.has_output_log {
            self.sinks.output_log.append(bytes, self.flush_every_write);
        }
        if self.sinks.has_combined_log {
            self.sinks.combined_log.append(bytes, self.flush_every_write);
        }
        if self.sinks.has_timing_log {
            let line = build_timing_line(
                self.format,
                Direction::Output,
                elapsed,
                bytes.len() as u64,
            );
            self.sinks.timing_log.append(line.as_slice(), self.flush_every_write);
        }
        self.child_output = Ghost(self.child_output@ + bytes@);
        self.last_output_chunk = Ghost(bytes@.len());
        proof {
            lemma_concat_timing_lines_push(
                self.format,
                self.timing_transfers@,
                (Direction::Output, (now_micros - old(self).last_transfer_micros) as nat,
                bytes@.len()),
            );
        }
        self.timing_transfers = Ghost(
            self.timing_transfers@.push(
                (
                    Direction::Output,
                    (now_micros - old(self).last_transfer_micros) as nat,
                    bytes@.len(),
                ),
            ),
        );
        let n: u64 = bytes.len() as u64;
        self.total_output_bytes = self.total_output_bytes.saturating_add(n);
        let limit_reached: bool = match self.output_limit {
            Some(l) => self.total_output_bytes >= l,
            None => false,
        };
        self.limit_hit = limit_reached;
        self.ended = limit_reached;
        proof {
            assert(self.sinks.transcript.data@ =~= self.transcript_initial@
                + self.child_output@);
            if self.sinks.has_output_log {
                assert(self.sinks.output_log.data@ =~= self.child_output@);
            }
            if self.sinks.has_timing_log {
                assert(self.sinks.timing_log.data@ =~= self.timing_initial@
                    + concat_timing_lines(self.format, self.timing_transfers@));
            }
        }
        limit_reached
    }

    /// The child closed its side of the pseudo-terminal: the session is
    /// over.
    pub fn on_output_eof(&mut self)
        requires
            old(self).wf(),
        ensures
            final(self).wf(),
            final(self).ended,
            *final(self) == (Session { ended: true, ..*old(self) }),
    {
        self.ended = true;
    }

    /// A read from the pseudo-terminal failed.  A would-block condition is
    /// transient and ignored; any other failure ends the session.
    pub fn on_output_read_error(&mut self, would_block: bool)
        requires
            old(self).wf(),
        ensures
            final(self).wf(),
            final(self).ended == (old(self).ended || !would_block),
            *final(self) == (Session { ended: final(self).ended, ..*old(self) }),
    {
        if !would_block {
            self.ended = true;
        }
    }

    /// Does the event loop keep running?  It stops once the child exited or
    /// the session ended for any other reason.
    pub fn should_continue(&self) -> (r: bool)
        ensures
            r == (!self.ended && !self.child_exited),
    {
        !self.ended && !self.child_exited
    }

    /// The session's recorded child status: the exit code observed, or 0
    /// when the session ended without observing one (in particular on the
    /// size-limit path, which signals the child instead).
    pub fn session_result(&self) -> (r: i32)
        ensures
            r == self.exit_status,
    {
        self.exit_status
    }
}

/// The transcript is a faithful relay: it holds exactly the bytes the child
/// wrote, in order, after whatever it held when the session began.
pub proof fn lemma_transcript_faithful(s: Session)
    requires
        s.wf(),
    ensures
        s.sinks.transcript.data@ == s.transcript_initial@ + s.child_output@,
{
}

/// The optional one-direction logs are faithful relays as well: the input
/// log holds exactly what the caller typed, the output log exactly what the
/// child wrote.
pub proof fn lemma_io_logs_faithful(s: Session)
    requires
        s.wf(),
    ensures
        s.sinks.has_input_log ==> s.sinks.input_log.data@ == s.caller_input@,
        s.sinks.has_output_log ==> s.sinks.output_log.data@ == s.child_output@,
{
}

/// Whatever run of bytes the child wrote can be found in the transcript.
pub proof fn lemma_child_output_in_transcript(s: Session, needle: Seq<u8>)
    requires
        s.wf(),
        contains_bytes(s.child_output@, needle),
    ensures
        contains_bytes(s.sinks.transcript.data@, needle),
{
    lemma_contains_in_extension(s.transcript_initial@, s.child_output@, needle);
}

/// Appending never rewrites history: the transcript's initial contents are
/// still its prefix, and everything after them is this session's output.
pub proof fn lemma_append_preserves_prior(s: Session)
    requires
        s.wf(),
    ensures
        s.sinks.transcript.data@.subrange(0, s.transcript_initial@.len() as int)
            == s.transcript_initial@,
        s.sinks.transcript.data@.subrange(
            s.transcript_initial@.len() as int,
            s.sinks.transcript.data@.len() as int,
        ) == s.child_output@,
{
    assert(s.sinks.transcript.data@.subrange(0, s.transcript_initial@.len() as int)
        =~= s.transcript_initial@);
    assert(s.sinks.transcript.data@.subrange(
        s.transcript_initial@.len() as int,
        s.sinks.transcript.data@.len() as int,
    ) =~= s.child_output@);
}

/// Output-limit enforcement: the transcript never grows past its initial
/// contents plus the limit plus the one transfer that was in flight when the
/// limit was met.
pub proof fn lemma_output_limit_margin(s: Session, l: u64)
    requires
        s.wf(),
        s.output_limit == Some(l),
    ensures
        s.sinks.transcript.data@.len() <= s.transcript_initial@.len() + l + s.last_output_chunk@,
{
}

/// The same margin against a bounded read buffer: when every read hands
/// over at most `chunk_max` bytes and the limit is at least one byte, the
/// transcript is bounded by its initial contents plus the limit plus
/// `chunk_max - 1`.
pub proof fn lemma_output_limit_chunk_bound(s: Session, l: u64, chunk_max: nat)
    requires
        s.wf(),
        s.output_limit == Some(l),
        l >= 1,
        chunk_max >= 1,
        s.last_output_chunk@ <= chunk_max,
    ensures
        s.sinks.transcript.data@.len() <= s.transcript_initial@.len() + l + chunk_max - 1,
{
}

/// The timing log is its initial contents followed by exactly one line per
/// transfer, in transfer order.
pub proof fn lemma_timing_log_content(s: Session)
    requires
        s.wf(),
        s.sinks.has_timing_log,
    ensures
        s.sinks.timing_log.data@ == s.timing_initial@ + concat_timing_lines(
            s.format,
            s.timing_transfers@,
        ),
{
}

} // verus!
