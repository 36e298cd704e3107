//! Probing a seekable byte source without moving its cursor.
//!
//! A probe never touches the source itself. It names the next operation
//! (`next_step`), its caller performs it and hands the outcome back
//! (`advance`), until the probe reports its answer. The source is modelled by
//! its bytes and its cursor (`serve`), and `run_remaining` and `run_endian`
//! drive a probe against that model.
use vstd::prelude::*;

use crate::endian::{endian_from_length_field, endian_of, endian_of_length_field, Endian, MIN_HEADER_BYTES};

verus! {

/// Where a seek moves the cursor to.
#[derive(Debug, Clone, Copy, PartialEq, Eq, Structural)]
pub enum SeekTo {
    /// An absolute offset from the start of the source.
    Start(u64),
    /// The current position (the cursor does not move).
    Current,
    /// The end of the source.
    End,
}

/// An operation a probe asks its caller to perform on the source.
#[derive(Debug, Clone, Copy, PartialEq, Eq, Structural)]
pub enum Request {
    /// Move the cursor; answered with `Reply::Position`.
    Seek(SeekTo),
    /// Read exactly two bytes at the cursor; answered with `Reply::Pair`.
    ReadPair,
}

/// The outcome of a performed `Request`.
#[derive(Debug, Clone, Copy, PartialEq, Eq, Structural)]
pub enum Reply {
    /// The cursor's offset from the start after a seek.
    Position(u64),
    /// The two bytes read, in the order they stand in the source.
    Pair(u8, u8),
}

/// What a probe wants next: an operation, or nothing more, with its answer.
#[derive(Debug, Clone, Copy, PartialEq, Eq, Structural)]
pub enum Step<T> {
    Perform(Request),
    Finished(T),
}

/// The number of bytes from `current_position` to the end of a source of
/// `total_length` bytes; zero when the cursor stands past the end.
pub fn bytes_after_filepointer(current_position: u64, total_length: u64) -> (r: u64)
    ensures
        current_position <= total_length ==> r == total_length - current_position,
        current_position > total_length ==> r == 0,
{
    if current_position <= total_length {
        total_length - current_position
    } else {
        0
    }
}

/// Measures the bytes after the cursor: records the cursor, seeks to the end
/// to learn the length, and seeks back.
#[derive(Debug, Clone, Copy, PartialEq, Eq, Structural)]
pub enum RemainingProbe {
    /// Asks for the cursor's position.
    Begin,
    /// Knows the cursor; asks for the end.
    Here { current: u64 },
    /// Knows the cursor and the length; asks to return to the cursor.
    Returning { current: u64, total: u64 },
    /// The cursor is back in place; the answer is known.
    Done { remaining: u64 },
}

impl RemainingProbe {
    /// The next step of this probe.
    pub open spec fn step_spec(self) -> Step<u64> {
        match self {
            RemainingProbe::Begin => Step::Perform(Request::Seek(SeekTo::Current)),
            RemainingProbe::Here { .. } => Step::Perform(Request::Seek(SeekTo::End)),
            RemainingProbe::Returning { current, .. } => Step::Perform(
                Request::Seek(SeekTo::Start(current)),
            ),
            RemainingProbe::Done { remaining } => Step::Finished(remaining),
        }
    }

    /// The probe after `reply`. A reply that does not answer the pending
    /// request, or one given to a finished probe, changes nothing.
    pub open spec fn after(self, reply: Reply) -> RemainingProbe {
        match (self, reply) {
            (RemainingProbe::Begin, Reply::Position(p)) => RemainingProbe::Here { current: p },
            (RemainingProbe::Here { current }, Reply::Position(t)) => RemainingProbe::Returning {
                current,
                total: t,
            },
            (RemainingProbe::Returning { current, total }, Reply::Position(_)) =>
                RemainingProbe::Done {
                remaining: if current <= total {
                    (total - current) as u64
                } else {
                    0
                },
            },
            _ => self,
        }
    }

    pub fn new() -> (r: RemainingProbe)
        ensures
            r == RemainingProbe::Begin,
    {
        RemainingProbe::Begin
    }

    pub fn next_step(&self) -> (r: Step<u64>)
        ensures
            r == self.step_spec(),
    {
        match *self {
            RemainingProbe::Begin => Step::Perform(Request::Seek(SeekTo::Current)),
            RemainingProbe::Here { .. } => Step::Perform(Request::Seek(SeekTo::End)),
            RemainingProbe::Returning { current, .. } => Step::Perform(
                Request::Seek(SeekTo::Start(current)),
            ),
            RemainingProbe::Done { remaining } => Step::Finished(remaining),
        }
    }

    pub fn advance(&mut self, reply: Reply)
        ensures
            *final(self) == old(self).after(reply),
    {
        let next = match (*self, reply) {
            (RemainingProbe::Begin, Reply::Position(p)) => RemainingProbe::Here { current: p },
            (RemainingProbe::Here { current }, Reply::Position(t)) => RemainingProbe::Returning {
                current,
                total: t,
            },
            (RemainingProbe::Returning { current, total }, Reply::Position(_)) =>
                RemainingProbe::Done { remaining: bytes_after_filepointer(current, total) },
            _ => *self,
        };
        *self = next;
    }
}

/// Tells a source's byte order and leaves its cursor where it was: records
/// the cursor, seeks to the start, measures what follows, reads the first
/// record's length field when there are enough bytes, and seeks back.
#[derive(Debug, Clone, Copy, PartialEq, Eq, Structural)]
pub enum EndianProbe {
    /// Asks for the caller's cursor.
    Begin,
    /// Knows the cursor to restore; asks to seek to the start.
    Rewinding { saved: u64 },
    /// Measures the bytes from the start. Once that is known it asks to read
    /// the length field, or, the source being too short, to restore the cursor.
    Measuring { saved: u64, remaining: RemainingProbe },
    /// Knows the answer; asks to restore the cursor.
    Restoring { saved: u64, result: Option<Endian> },
    /// The cursor is restored; the answer is known.
    Done { result: Option<Endian> },
}

impl EndianProbe {
    /// The next step of this probe.
    pub open spec fn step_spec(self) -> Step<Option<Endian>> {
        match self {
            EndianProbe::Begin => Step::Perform(Request::Seek(SeekTo::Current)),
            EndianProbe::Rewinding { .. } => Step::Perform(Request::Seek(SeekTo::Start(0))),
            EndianProbe::Measuring { saved, remaining } => match remaining.step_spec() {
                Step::Perform(req) => Step::Perform(req),
                Step::Finished(n) => if n >= MIN_HEADER_BYTES {
                    Step::Perform(Request::ReadPair)
                } else {
                    Step::Perform(Request::Seek(SeekTo::Start(saved)))
                },
            },
            EndianProbe::Restoring { saved, .. } => Step::Perform(
                Request::Seek(SeekTo::Start(saved)),
            ),
            EndianProbe::Done { result } => Step::Finished(result),
        }
    }

    /// The probe after `reply`. A reply that does not answer the pending
    /// request, or one given to a finished probe, changes nothing.
    pub open spec fn after(self, reply: Reply) -> EndianProbe {
        match self {
            EndianProbe::Begin => match reply {
                Reply::Position(p) => EndianProbe::Rewinding { saved: p },
                _ => self,
            },
            EndianProbe::Rewinding { saved } => match reply {
                Reply::Position(_) => EndianProbe::Measuring {
                    saved,
                    remaining: RemainingProbe::Begin,
                },
                _ => self,
            },
            EndianProbe::Measuring { saved, remaining } => match remaining {
                RemainingProbe::Done { remaining: n } => if n >= MIN_HEADER_BYTES {
                    match reply {
                        Reply::Pair(b0, b1) => EndianProbe::Restoring {
                            saved,
                            result: Some(endian_of_length_field(b0, b1)),
                        },
                        _ => self,
                    }
                } else {
                    match reply {
                        Reply::Position(_) => EndianProbe::Done { result: None },
                        _ => self,
                    }
                },
                _ => EndianProbe::Measuring { saved, remaining: remaining.after(reply) },
            },
            EndianProbe::Restoring { result, .. } => match reply {
                Reply::Position(_) => EndianProbe::Done { result },
                _ => self,
            },
            EndianProbe::Done { .. } => self,
        }
    }

    pub fn new() -> (r: EndianProbe)
        ensures
            r == EndianProbe::Begin,
    {
        EndianProbe::Begin
    }

    pub fn next_step(&self) -> (r: Step<Option<Endian>>)
        ensures
            r == self.step_spec(),
    {
        match *self {
            EndianProbe::Begin => Step::Perform(Request::Seek(SeekTo::Current)),
            EndianProbe::Rewinding { .. } => Step::Perform(Request::Seek(SeekTo::Start(0))),
            EndianProbe::Measuring { saved, remaining } => match remaining.next_step() {
                Step::Perform(req) => Step::Perform(req),
                Step::Finished(n) => if n >= MIN_HEADER_BYTES {
                    Step::Perform(Request::ReadPair)
                } else {
                    Step::Perform(Request::Seek(SeekTo::Start(saved)))
                },
            },
            EndianProbe::Restoring { saved, .. } => Step::Perform(
                Request::Seek(SeekTo::Start(saved)),
            ),
            EndianProbe::Done { result } => Step::Finished(result),
        }
    }

    pub fn advance(&mut self, reply: Reply)
        ensures
            *final(self) == old(self).after(reply),
    {
        let next = match *self {
            EndianProbe::Begin => match reply {
                Reply::Position(p) => EndianProbe::Rewinding { saved: p },
                _ => *self,
            },
            EndianProbe::Rewinding { saved } => match reply {
                Reply::Position(_) => EndianProbe::Measuring {
                    saved,
                    remaining: RemainingProbe::new(),
                },
                _ => *self,
            },
            EndianProbe::Measuring { saved, remaining } => match remaining {
                RemainingProbe::Done { remaining: n } => if n >= MIN_HEADER_BYTES {
                    match reply {
                        Reply::Pair(b0, b1) => EndianProbe::Restoring {
                            saved,
                            result: Some(endian_from_length_field(b0, b1)),
                        },
                        _ => *self,
                    }
                } else {
                    match reply {
                        Reply::Position(_) => EndianProbe::Done { result: None },
                        _ => *self,
                    }
                },
                _ => {
                    let mut measure = remaining;
                    measure.advance(reply);
                    EndianProbe::Measuring { saved, remaining: measure }
                },
            },
            EndianProbe::Restoring { result, .. } => match reply {
                Reply::Position(_) => EndianProbe::Done { result },
                _ => *self,
            },
            EndianProbe::Done { .. } => *self,
        };
        *self = next;
    }
}

/// A seekable source as a probe meets it: its bytes and its cursor.
pub struct Source {
    pub data: Seq<u8>,
    pub pos: nat,
}

/// A source whose length and cursor can be reported as `u64` offsets.
pub open spec fn addressable(src: Source) -> bool {
    src.data.len() <= u64::MAX && src.pos <= u64::MAX
}

/// What a source does for `req`: the source afterwards and the reply, or
/// `None` where the request fails (a read that would pass the end).
pub open spec fn serve(src: Source, req: Request) -> Option<(Source, Reply)> {
    match req {
        Request::Seek(SeekTo::Start(n)) => Some(
            (Source { data: src.data, pos: n as nat }, Reply::Position(n)),
        ),
        Request::Seek(SeekTo::Current) => Some((src, Reply::Position(src.pos as u64))),
        Request::Seek(SeekTo::End) => Some(
            (
                Source { data: src.data, pos: src.data.len() },
                Reply::Position(src.data.len() as u64),
            ),
        ),
        Request::ReadPair => if src.pos + 2 <= src.data.len() {
            Some(
                (
                    Source { data: src.data, pos: src.pos + 2 },
                    Reply::Pair(src.data[src.pos as int], src.data[(src.pos + 1) as int]),
                ),
            )
        } else {
            None
        },
    }
}

/// Drives `probe` against `src` for at most `fuel` operations: the answer and
/// the source at the end, or `None` if an operation fails or the fuel runs out.
pub open spec fn run_remaining(probe: RemainingProbe, src: Source, fuel: nat) -> Option<(u64, Source)>
    decreases fuel,
{
    match probe.step_spec() {
        Step::Finished(n) => Some((n, src)),
        Step::Perform(req) => if fuel == 0 {
            None
        } else {
            match serve(src, req) {
                Some((next, reply)) => run_remaining(probe.after(reply), next, (fuel - 1) as nat),
                None => None,
            }
        },
    }
}

/// Drives `probe` against `src` for at most `fuel` operations: the answer and
/// the source at the end, or `None` if an operation fails or the fuel runs out.
pub open spec fn run_endian(probe: EndianProbe, src: Source, fuel: nat) -> Option<(Option<Endian>, Source)>
    decreases fuel,
{
    match probe.step_spec() {
        Step::Finished(r) => Some((r, src)),
        Step::Perform(req) => if fuel == 0 {
            None
        } else {
            match serve(src, req) {
                Some((next, reply)) => run_endian(probe.after(reply), next, (fuel - 1) as nat),
                None => None,
            }
        },
    }
}

/// The remaining-bytes probe, started on a source of `L` bytes with the
/// cursor at `c <= L`, answers `L - c` within three operations and leaves the
/// cursor at `c`.
pub proof fn lemma_remaining_is_length_minus_cursor(src: Source)
    requires
        addressable(src),
        src.pos <= src.data.len(),
    ensures
        run_remaining(RemainingProbe::Begin, src, 3) == Some(
            ((src.data.len() - src.pos) as u64, src),
        ),
{
    reveal_with_fuel(run_remaining, 4);
}

/// The byte-order probe, started on any addressable source, finishes within
/// seven operations, none of which fails, with `endian_of` of the source's
/// bytes, and leaves the source as it found it.
pub proof fn lemma_endian_probe_outcome(src: Source)
    requires
        addressable(src),
    ensures
        run_endian(EndianProbe::Begin, src, 7) == Some((endian_of(src.data), src)),
{
    reveal_with_fuel(run_endian, 8);
}

/// Whatever the source holds and wherever its cursor stands, the byte-order
/// probe finishes and leaves the cursor where it found it.
pub proof fn lemma_cursor_restored(src: Source)
    requires
        addressable(src),
    ensures
        run_endian(EndianProbe::Begin, src, 7) is Some,
        run_endian(EndianProbe::Begin, src, 7).unwrap().1.pos == src.pos,
{
    lemma_endian_probe_outcome(src);
}

/// A source of fewer than six bytes finishes the byte-order probe,
/// without a failed operation, with no answer.
pub proof fn lemma_short_source_undetermined(src: Source)
    requires
        addressable(src),
        src.data.len() < 6,
    ensures
        run_endian(EndianProbe::Begin, src, 7) == Some((None::<Endian>, src)),
{
    lemma_endian_probe_outcome(src);
}

/// A source that starts with `[0x02, 0x00]` and holds at least four bytes
/// more is little-endian.
pub proof fn lemma_little_endian_header(src: Source)
    requires
        addressable(src),
        src.data.len() >= 6,
        src.data[0] == 0x02u8,
        src.data[1] == 0x00u8,
    ensures
        run_endian(EndianProbe::Begin, src, 7) == Some((Some(Endian::Little), src)),
{
    lemma_endian_probe_outcome(src);
}

/// A source that starts with `[0x00, 0x02]` and holds at least four bytes
/// more is big-endian.
pub proof fn lemma_big_endian_fallback(src: Source)
    requires
        addressable(src),
        src.data.len() >= 6,
        src.data[0] == 0x00u8,
        src.data[1] == 0x02u8,
    ensures
        run_endian(EndianProbe::Begin, src, 7) == Some((Some(Endian::Big), src)),
{
    lemma_endian_probe_outcome(src);
}

} // verus!
