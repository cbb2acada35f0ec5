//! The blocking read and seek contract over a byte source.
//!
//! The engine pulls bytes through a blocking call and expects the buffer it
//! hands over to come back full unless the stream has ended. A byte source
//! may deliver less than it was asked for, so one blocking read is a run of
//! reads on the source, each into the part of the buffer that is still empty.
//!
//! What the source returns is outside this crate. The bridge therefore
//! writes down every exchange with its source in a ghost record, and the
//! contracts of [`AsyncReader::read`] and [`AsyncReader::seek`] say what was
//! asked and what was returned in terms of that record. A source may keep
//! such a record of its own; the contracts then say that both records have
//! grown by the same exchanges, so that what the bridge wrote down is what
//! reached the source.
//!
//! The decisions of a blocking read are [`fill_begin`] and [`fill_step`].
//! Whoever has to wait on the source in a way of its own runs the same loop
//! on these two and decides nothing itself.

use vstd::prelude::*;

verus! {

/// Why a read or a seek on a byte source failed.
///
/// The bridge reads nothing into a failure: whatever its kind, it ends the
/// call and is passed on unchanged. The end of the stream is told by a
/// delivery of zero bytes, never by a failure.
#[derive(Debug, Clone, Copy, PartialEq, Eq, Structural)]
pub enum IoError {
    NotFound,
    PermissionDenied,
    ConnectionRefused,
    ConnectionReset,
    HostUnreachable,
    NetworkUnreachable,
    ConnectionAborted,
    NotConnected,
    AddrInUse,
    AddrNotAvailable,
    NetworkDown,
    BrokenPipe,
    AlreadyExists,
    WouldBlock,
    NotADirectory,
    IsADirectory,
    DirectoryNotEmpty,
    ReadOnlyFilesystem,
    StaleNetworkFileHandle,
    InvalidInput,
    InvalidData,
    TimedOut,
    WriteZero,
    StorageFull,
    NotSeekable,
    QuotaExceeded,
    FileTooLarge,
    ResourceBusy,
    ExecutableFileBusy,
    Deadlock,
    CrossesDevices,
    TooManyLinks,
    InvalidFilename,
    ArgumentListTooLong,
    Interrupted,
    Unsupported,
    UnexpectedEof,
    OutOfMemory,
    Other,
}

/// One exchange between a bridge and its byte source.
pub enum Exchange {
    /// A read was handed a slice that held `before`, came back with `outcome`
    /// and left `after` in the slice.
    Read { before: Seq<u8>, outcome: Result<usize, IoError>, after: Seq<u8> },
    /// A seek to the absolute `position` came back with `reached`.
    Seek { position: u64, reached: Result<u64, IoError> },
}

/// A byte source that can be read in sequence and moved to an absolute
/// position. Each call stands for one operation of the source that has been
/// driven to completion.
///
/// Nothing is asked of what a source answers. The clauses below say two
/// things only. A slice keeps its length, which the language gives and the
/// verifier does not know of a call it cannot see into. And a source that
/// keeps a record of what it has served adds every call to it, as it was
/// asked and as it answered: through that record the contracts of the bridge
/// are held to the calls that reached the source. A source that keeps no
/// record, as every source written outside the verifier, is asked nothing.
pub trait AsyncSeekableRead {
    /// Whether sources of this type keep a record of what they have served.
    open spec fn keeps_record() -> bool {
        false
    }

    /// Every exchange that this source has served, oldest first, for a source
    /// that keeps a record.
    open spec fn served(&self) -> Seq<Exchange> {
        Seq::empty()
    }

    /// Reads into `buffer` and returns how many bytes were delivered; zero
    /// means that the stream has ended.
    fn read(&mut self, buffer: &mut [u8]) -> (outcome: Result<usize, IoError>)
        ensures
            final(buffer)@.len() == old(buffer)@.len(),
            Self::keeps_record() ==> final(self).served() == old(self).served().push(
                Exchange::Read { before: old(buffer)@, outcome, after: final(buffer)@ },
            ),
    ;

    /// Moves to the absolute byte `position` and returns the position reached.
    fn seek(&mut self, position: u64) -> (outcome: Result<u64, IoError>)
        ensures
            Self::keeps_record() ==> final(self).served() == old(self).served().push(
                Exchange::Seek { position, reached: outcome },
            ),
    ;
}

/// What the bridge does next in a blocking read.
#[derive(Debug, Clone, Copy, PartialEq, Eq, Structural)]
pub enum FillStep {
    /// Read on the source, into the rest of the buffer behind this many bytes
    /// in place.
    Again(usize),
    /// The blocking read is over and returns this many bytes.
    Done(usize),
    /// The blocking read is over and returns this failure.
    Failed(IoError),
}

/// The decision at the start of a blocking read into `capacity` bytes: a
/// buffer without room is done at once, with nothing read; any other is read
/// into from its first byte.
pub open spec fn spec_fill_begin(capacity: usize) -> FillStep {
    if capacity == 0 {
        FillStep::Done(0)
    } else {
        FillStep::Again(0)
    }
}

/// Decides how a blocking read into `capacity` bytes starts.
#[verifier::when_used_as_spec(spec_fill_begin)]
pub fn fill_begin(capacity: usize) -> (step: FillStep)
    ensures
        step == spec_fill_begin(capacity),
{
    if capacity == 0 {
        FillStep::Done(0)
    } else {
        FillStep::Again(0)
    }
}

/// The decision after one read on the source, with `filled` bytes of a buffer
/// of `capacity` bytes in place before it.
///
/// A delivery of zero bytes is the end of the stream and ends the read with
/// what is in place. A delivery that reaches the end of the buffer ends it
/// with the full length; a source that claims more than the space it was
/// given is held to that space. A failure of the source, of whatever kind,
/// ends the read as that failure.
pub open spec fn spec_fill_step(
    capacity: usize,
    filled: usize,
    outcome: Result<usize, IoError>,
) -> FillStep {
    match outcome {
        Ok(delivered) => if delivered == 0 {
            FillStep::Done(filled)
        } else if delivered >= capacity - filled {
            FillStep::Done(capacity)
        } else {
            FillStep::Again((filled + delivered) as usize)
        },
        Err(error) => FillStep::Failed(error),
    }
}

/// Decides how a blocking read goes on after one read on the source.
#[verifier::when_used_as_spec(spec_fill_step)]
pub fn fill_step(capacity: usize, filled: usize, outcome: Result<usize, IoError>) -> (step:
    FillStep)
    requires
        filled <= capacity,
    ensures
        step == spec_fill_step(capacity, filled, outcome),
{
    match outcome {
        Ok(delivered) => {
            if delivered == 0 {
                FillStep::Done(filled)
            } else if delivered >= capacity - filled {
                FillStep::Done(capacity)
            } else {
                FillStep::Again(filled + delivered)
            }
        },
        Err(error) => FillStep::Failed(error),
    }
}

/// The position that a seek to `offset` asks of the source: the offset itself,
/// and for a negative one the same 64 bits read as an unsigned number.
pub open spec fn spec_seek_position(offset: i64) -> u64 {
    if offset >= 0 {
        offset as u64
    } else {
        (offset + 0x1_0000_0000_0000_0000) as u64
    }
}

/// Computes the absolute position that a seek to `offset` asks of the source.
#[verifier::when_used_as_spec(spec_seek_position)]
pub fn seek_position(offset: i64) -> (position: u64)
    ensures
        position == spec_seek_position(offset),
{
    let position = #[verifier::truncate] (offset as u64);
    assert(position == spec_seek_position(offset)) by {
        assert(offset >= 0 ==> offset as u64 == offset) by (bit_vector);
        assert(offset < 0 ==> offset as u64 == offset + 0x1_0000_0000_0000_0000) by (bit_vector);
    }
    position
}

/// How far one blocking read has come after the exchanges of `trace`: the
/// bytes in place and what the buffer holds, for a buffer that held `initial`
/// at the start. This is defined where `trace` is the unfinished beginning of
/// such a read: every exchange is a read that was handed exactly the rest of
/// the buffer behind the bytes in place, and after which the bridge reads
/// again. It is `None` if `trace` is no such beginning.
pub open spec fn fill_after(initial: Seq<u8>, trace: Seq<Exchange>) -> Option<(usize, Seq<u8>)>
    decreases trace.len(),
{
    if trace.len() == 0 {
        Some((0, initial))
    } else {
        match (fill_after(initial, trace.drop_last()), trace.last()) {
            (Some((filled, buffer)), Exchange::Read { before, outcome, after }) => {
                if filled < initial.len() && before == buffer.skip(filled as int) && after.len()
                    == before.len() {
                    match spec_fill_step(initial.len() as usize, filled, outcome) {
                        FillStep::Again(next) => Some((next, buffer.take(filled as int) + after)),
                        _ => None,
                    }
                } else {
                    None
                }
            },
            _ => None,
        }
    }
}

/// What one blocking read returns and what it leaves in the buffer, for a
/// buffer that held `initial`, when `trace` is the whole of its exchanges
/// with the source.
///
/// A buffer without room returns zero after no exchange. Otherwise the last
/// exchange is the read that ends the blocking read: with the count in place,
/// or with the failure of the source. What the source left in the slices that
/// it was handed is in the buffer, each behind the bytes that were in place
/// before it. It is `None` if `trace` is not the whole of such a read.
pub open spec fn read_result(initial: Seq<u8>, trace: Seq<Exchange>) -> Option<
    (Result<usize, IoError>, Seq<u8>),
> {
    if initial.len() == 0 {
        if trace.len() == 0 {
            Some((Ok(0), initial))
        } else {
            None
        }
    } else if trace.len() == 0 {
        None
    } else {
        match (fill_after(initial, trace.drop_last()), trace.last()) {
            (Some((filled, buffer)), Exchange::Read { before, outcome, after }) => {
                if filled < initial.len() && before == buffer.skip(filled as int) && after.len()
                    == before.len() {
                    let left = buffer.take(filled as int) + after;
                    match spec_fill_step(initial.len() as usize, filled, outcome) {
                        FillStep::Again(_) => None,
                        FillStep::Done(total) => Some((Ok(total), left)),
                        FillStep::Failed(error) => Some((Err(error), left)),
                    }
                } else {
                    None
                }
            },
            _ => None,
        }
    }
}

/// The bytes that the reads of `trace` report as delivered, in sum.
pub open spec fn delivered(trace: Seq<Exchange>) -> nat
    decreases trace.len(),
{
    if trace.len() == 0 {
        0
    } else {
        delivered(trace.drop_last()) + match trace.last() {
            Exchange::Read { outcome: Ok(count), .. } => count as nat,
            _ => 0,
        }
    }
}

/// `trace` is a run of reads as a source makes them that has `data` left to
/// deliver and keeps to the rules of sequential reading: each read succeeds,
/// delivers the next bytes of `data` to the front of the slice that it was
/// handed and leaves the rest of the slice alone, delivers no more than the
/// slice takes, and delivers nothing only when the slice takes nothing or
/// `data` is used up. Such a source tells its end by a delivery of zero.
pub open spec fn faithful(data: Seq<u8>, trace: Seq<Exchange>) -> bool
    decreases trace.len(),
{
    trace.len() == 0 || {
        let earlier = trace.drop_last();
        let at = delivered(earlier);
        &&& faithful(data, earlier)
        &&& trace.last() matches Exchange::Read { before, outcome: Ok(count), after }
        &&& count <= before.len()
        &&& at + count <= data.len()
        &&& (count == 0 ==> before.len() == 0 || at == data.len())
        &&& after == data.subrange(at as int, at + count) + before.skip(count as int)
    }
}

/// While a blocking read on a faithful source goes on, the bytes in place are
/// the bytes delivered so far, and the buffer holds them in front of what it
/// held before.
proof fn lemma_fill_after_faithful(initial: Seq<u8>, data: Seq<u8>, trace: Seq<Exchange>)
    requires
        initial.len() <= usize::MAX,
        faithful(data, trace),
        fill_after(initial, trace) is Some,
    ensures
        ({
            let (filled, buffer) = fill_after(initial, trace).unwrap();
            &&& filled == delivered(trace)
            &&& filled <= data.len()
            &&& filled <= initial.len()
            &&& buffer == data.take(filled as int) + initial.skip(filled as int)
        }),
    decreases trace.len(),
{
    if trace.len() > 0 {
        lemma_fill_after_faithful(initial, data, trace.drop_last());
    }
}

/// What a blocking read returns and leaves in a buffer that held `initial`
/// when its source is faithful and has `data` left: the length of the buffer
/// if `data` is at least as long, else the length of `data`; and in the
/// buffer the bytes of `data` that were counted, with what the buffer held
/// before behind them.
pub open spec fn read_fill(initial: Seq<u8>, data: Seq<u8>) -> (Result<usize, IoError>, Seq<u8>) {
    let count = if initial.len() <= data.len() {
        initial.len()
    } else {
        data.len()
    };
    (Ok(count as usize), data.take(count as int) + initial.skip(count as int))
}

/// The read-fill law. A blocking read whose exchanges are those of a faithful
/// source with `data` left returns and leaves what [`read_fill`] says: the
/// full length and a full buffer where the source has enough, the number of
/// bytes that the source has and only that much of the buffer changed where
/// it has less.
pub proof fn lemma_read_fill(initial: Seq<u8>, data: Seq<u8>, trace: Seq<Exchange>)
    requires
        initial.len() <= usize::MAX,
        faithful(data, trace),
        read_result(initial, trace) is Some,
    ensures
        read_result(initial, trace) == Some(read_fill(initial, data)),
{
    if trace.len() > 0 {
        lemma_fill_after_faithful(initial, data, trace.drop_last());
    }
}

/// The outcome of a read on the source, for an exchange that is one.
pub open spec fn outcome_of(exchange: Exchange) -> Option<Result<usize, IoError>> {
    match exchange {
        Exchange::Read { outcome, .. } => Some(outcome),
        Exchange::Seek { .. } => None,
    }
}

/// While a blocking read goes on, every exchange behind it was a read on the
/// source that succeeded.
proof fn lemma_unfinished_reads_succeeded(initial: Seq<u8>, trace: Seq<Exchange>)
    requires
        fill_after(initial, trace) is Some,
    ensures
        forall|i: int|
            0 <= i < trace.len() ==> (#[trigger] outcome_of(trace[i]) matches Some(Ok(_))),
    decreases trace.len(),
{
    if trace.len() > 0 {
        lemma_unfinished_reads_succeeded(initial, trace.drop_last());
        assert forall|i: int| 0 <= i < trace.len() implies (#[trigger] outcome_of(
            trace[i],
        ) matches Some(Ok(_))) by {
            if i < trace.len() - 1 {
                assert(trace[i] == trace.drop_last()[i]);
            }
        }
    }
}

/// No failure is swallowed and none is made up. In the exchanges of one
/// blocking read, every read on the source but the last succeeded, so a read
/// that failed is the last of them; its failure is the result; and a result
/// that is a failure is the outcome of the last read on the source.
pub proof fn lemma_failure_is_passed_on(
    initial: Seq<u8>,
    trace: Seq<Exchange>,
    result: Result<usize, IoError>,
    left: Seq<u8>,
)
    requires
        read_result(initial, trace) == Some((result, left)),
    ensures
        forall|i: int|
            0 <= i < trace.len() - 1 ==> (#[trigger] outcome_of(trace[i]) matches Some(Ok(_))),
        forall|i: int|
            0 <= i < trace.len() ==> (#[trigger] outcome_of(trace[i]) matches Some(outcome)
                && (outcome is Err ==> outcome == result)),
        result is Err ==> trace.len() > 0 && outcome_of(trace.last()) == Some(result),
{
    if trace.len() > 0 {
        lemma_unfinished_reads_succeeded(initial, trace.drop_last());
        assert forall|i: int| 0 <= i < trace.len() - 1 implies (#[trigger] outcome_of(
            trace[i],
        ) matches Some(Ok(_))) by {
            assert(trace[i] == trace.drop_last()[i]);
        }
    }
}

/// The read-fill law of one call: if a blocking read returned `result` and
/// left `left` in a buffer that held `initial`, then for every `data` to
/// which its exchanges are faithful, these are what [`read_fill`] says.
proof fn lemma_read_fill_of_call(
    initial: Seq<u8>,
    trace: Seq<Exchange>,
    result: Result<usize, IoError>,
    left: Seq<u8>,
)
    requires
        initial.len() <= usize::MAX,
        read_result(initial, trace) == Some((result, left)),
    ensures
        forall|data: Seq<u8>| #[trigger]
            faithful(data, trace) ==> (result, left) == read_fill(initial, data),
{
    assert forall|data: Seq<u8>| #[trigger] faithful(data, trace) implies (result, left)
        == read_fill(initial, data) by {
        lemma_read_fill(initial, data, trace);
    }
}

/// The bridge between a blocking caller and one byte source.
pub struct AsyncReader<S> {
    stream: S,
    history: Ghost<Seq<Exchange>>,
}

impl<S: AsyncSeekableRead> AsyncReader<S> {
    /// The byte source behind the bridge.
    pub closed spec fn stream(&self) -> S {
        self.stream
    }

    /// The exchanges that this bridge has made with its source, oldest first,
    /// as the bridge has written them down. Where the source keeps a record
    /// of its own, [`AsyncReader::read`] and [`AsyncReader::seek`] say that
    /// the record of the source has grown by the same exchanges.
    pub closed spec fn history(&self) -> Seq<Exchange> {
        self.history@
    }

    /// The exchanges that were added to the history of `earlier` to arrive at
    /// the history of `self`.
    pub open spec fn since(&self, earlier: &Self) -> Seq<Exchange> {
        self.history().skip(earlier.history().len() as int)
    }

    /// Wraps a byte source. No exchange has taken place yet.
    pub fn new(source: S) -> (reader: Self)
        ensures
            reader.stream() == source,
            reader.history() == Seq::<Exchange>::empty(),
    {
        AsyncReader { stream: source, history: Ghost(Seq::empty()) }
    }

    /// Fills `buffer` from the source: reads into the rest of the buffer
    /// behind the bytes in place until the buffer is full, the source
    /// delivers nothing, or it fails.
    ///
    /// The history grows by the exchanges of this call, and where the source
    /// keeps a record, that record grows by the same exchanges: they are the
    /// calls that reached the source, and no others. The result and the bytes
    /// left in the buffer are the ones that [`read_result`] gives for them:
    /// the count in place when the buffer is full or the source delivers
    /// nothing, and the failure of the source, unchanged and of whatever
    /// kind, when a read on it fails. Whatever the source does, the count
    /// does not exceed the buffer's length, every read on the source but the
    /// last succeeded, a failed read is the result, and a failure that is
    /// returned is that of the last read. A buffer without room returns zero
    /// without an exchange. Where the source was faithful, the read-fill law
    /// holds of the call.
    pub fn read(&mut self, buffer: &mut [u8]) -> (result: Result<usize, IoError>)
        ensures
            old(self).history().is_prefix_of(final(self).history()),
            S::keeps_record() ==> final(self).stream().served() == old(self).stream().served()
                + final(self).since(old(self)),
            read_result(old(buffer)@, final(self).since(old(self))) == Some(
                (result, final(buffer)@),
            ),
            final(buffer)@.len() == old(buffer)@.len(),
            result matches Ok(count) ==> count <= old(buffer)@.len(),
            forall|i: int|
                0 <= i < final(self).since(old(self)).len() - 1 ==> (#[trigger] outcome_of(
                    final(self).since(old(self))[i],
                ) matches Some(Ok(_))),
            forall|i: int|
                0 <= i < final(self).since(old(self)).len() ==> (#[trigger] outcome_of(
                    final(self).since(old(self))[i],
                ) matches Some(outcome) && (outcome is Err ==> outcome == result)),
            result is Err ==> outcome_of(final(self).history().last()) == Some(result),
            old(buffer)@.len() == 0 ==> result == Ok::<usize, IoError>(0) && final(self).history()
                == old(self).history(),
            forall|data: Seq<u8>| #[trigger]
                faithful(data, final(self).since(old(self))) ==> (result, final(buffer)@)
                    == read_fill(old(buffer)@, data),
    {
        let capacity = buffer.len();
        let mut step = fill_begin(capacity);
        let mut result: Result<usize, IoError> = Ok(0);
        let ghost start = self.history@;
        let ghost mut trace = Seq::<Exchange>::empty();
        loop
            invariant_except_break
                step matches FillStep::Again(filled) ==> filled < capacity && fill_after(
                    old(buffer)@,
                    trace,
                ) == Some((filled, buffer@)),
                step matches FillStep::Done(total) ==> read_result(old(buffer)@, trace) == Some(
                    (Ok::<usize, IoError>(total), buffer@),
                ),
                step matches FillStep::Failed(error) ==> read_result(old(buffer)@, trace) == Some(
                    (Err::<usize, IoError>(error), buffer@),
                ),
            invariant
                buffer@.len() == capacity,
                old(buffer)@.len() == capacity,
                start == old(self).history@,
                self.history@ == start + trace,
                S::keeps_record() ==> self.stream.served() == old(self).stream.served() + trace,
            ensures
                read_result(old(buffer)@, trace) == Some((result, buffer@)),
            decreases
                    match step {
                        FillStep::Again(filled) => capacity - filled + 1,
                        _ => 0,
                    },
        {
            match step {
                FillStep::Again(filled) => {
                    let (_, tail) = buffer.split_at_mut(filled);
                    let ghost before = tail@;
                    let outcome = self.stream.read(tail);
                    let ghost exchange = Exchange::Read { before, outcome, after: tail@ };
                    proof {
                        assert(trace.push(exchange).drop_last() == trace);
                        assert((old(self).stream.served() + trace).push(exchange) == old(
                            self,
                        ).stream.served() + trace.push(exchange));
                        trace = trace.push(exchange);
                        self.history@ = self.history@.push(exchange);
                    }
                    step = fill_step(capacity, filled, outcome);
                },
                FillStep::Done(total) => {
                    result = Ok(total);
                    break ;
                },
                FillStep::Failed(error) => {
                    result = Err(error);
                    break ;
                },
            }
        }
        proof {
            assert((start + trace).skip(start.len() as int) == trace);
            lemma_failure_is_passed_on(old(buffer)@, trace, result, buffer@);
            lemma_read_fill_of_call(old(buffer)@, trace, result, buffer@);
        }
        result
    }

    /// Moves the source to the absolute position that `offset` stands for and
    /// returns what the source returned, the reached position or its failure.
    /// The history grows by that one exchange, and so does the record of a
    /// source that keeps one.
    pub fn seek(&mut self, offset: i64) -> (result: Result<u64, IoError>)
        ensures
            final(self).history() == old(self).history().push(
                Exchange::Seek { position: spec_seek_position(offset), reached: result },
            ),
            S::keeps_record() ==> final(self).stream().served() == old(
                self,
            ).stream().served().push(
                Exchange::Seek { position: spec_seek_position(offset), reached: result },
            ),
    {
        let position = seek_position(offset);
        let outcome = self.stream.seek(position);
        proof {
            self.history@ = self.history@.push(Exchange::Seek { position, reached: outcome });
        }
        outcome
    }
}

} // verus!
