//! The state machine of a region decoder.
//!
//! The engine does the decoding. What is decided here is what follows from
//! each of its reports: whether the caller gets a region back, whether the
//! engine has to be asked to finalize, and when the decoder is over. The owner
//! of the engine handle feeds the reports in as events and performs the
//! actions that come back.

use vstd::prelude::*;
use crate::geometry::Region;

verus! {

/// Why a call on a region decoder failed.
#[derive(Debug, Clone, Copy, PartialEq, Eq, Structural)]
pub enum DecodeError {
    /// The engine could not finalize the region and gave this code.
    Engine { error_code: i32 },
    /// The decoder was handed an event that its state does not await, such as
    /// a request after it has finished or failed.
    ProtocolMisuse,
}

/// Where a region decoder stands.
#[derive(Debug, Clone, Copy, PartialEq, Eq, Structural)]
pub enum DecoderState {
    /// Ready for a request.
    Open,
    /// A request is under way and the engine's report on it is awaited.
    Decoding,
    /// The engine has exhausted the region, last writing `written`, and its
    /// answer to the finalize query is awaited.
    Finalizing { written: Region },
    /// The region is complete. Terminal.
    Finished,
    /// The engine failed to finalize. Terminal.
    Failed,
}

/// What reaches a region decoder.
#[derive(Debug, Clone, Copy, PartialEq, Eq, Structural)]
pub enum DecodeEvent {
    /// The caller asks for the next samples and has supplied a buffer.
    Requested,
    /// The engine has written `written` into the buffer and says whether more
    /// of the region is pending.
    Processed { incomplete: bool, written: Region },
    /// The engine has answered the finalize query.
    Finalized { ok: bool, error_code: i32 },
}

/// What the owner of the engine handle does next.
#[derive(Debug, Clone, Copy, PartialEq, Eq, Structural)]
pub enum DecodeAction {
    /// Hand the caller's buffer to the engine and report back with
    /// [`DecodeEvent::Processed`].
    RunEngine,
    /// Ask the engine to finalize and report back with
    /// [`DecodeEvent::Finalized`].
    Finalize,
    /// Give this region to the caller; the request has succeeded.
    Return(Region),
    /// Give this failure to the caller; the request has failed.
    Fail(DecodeError),
}

impl DecodeError {
    /// The text that describes the failure to a reader.
    pub open spec fn spec_message(self) -> Seq<char> {
        match self {
            DecodeError::Engine { .. } => "Kakadu Decompression error"@,
            DecodeError::ProtocolMisuse => {
                "Kakadu decompressor was handed an event that it did not await"@
            },
        }
    }

    /// Describes the failure in words.
    pub fn message(&self) -> (text: String)
        ensures
            text@ == self.spec_message(),
    {
        match self {
            DecodeError::Engine { .. } => "Kakadu Decompression error".to_owned(),
            DecodeError::ProtocolMisuse => {
                "Kakadu decompressor was handed an event that it did not await".to_owned()
            },
        }
    }
}

impl DecoderState {
    /// No transition leaves a finished or failed decoder.
    pub open spec fn is_terminal(self) -> bool {
        self is Finished || self is Failed
    }
}

/// The transition of a region decoder: the state after `event` and the action
/// that it calls for.
///
/// A request starts the engine. A report of more pending data returns the
/// written region and leaves the decoder open. A report that the region is
/// exhausted calls for the finalize query at once; its answer returns the
/// written region and finishes the decoder, or fails it with the engine's
/// code. An event that the state does not await changes nothing and returns
/// a protocol misuse.
pub open spec fn decode_step(state: DecoderState, event: DecodeEvent) -> (
    DecoderState,
    DecodeAction,
) {
    match (state, event) {
        (DecoderState::Open, DecodeEvent::Requested) => (
            DecoderState::Decoding,
            DecodeAction::RunEngine,
        ),
        (DecoderState::Decoding, DecodeEvent::Processed { incomplete, written }) => if incomplete {
            (DecoderState::Open, DecodeAction::Return(written))
        } else {
            (DecoderState::Finalizing { written }, DecodeAction::Finalize)
        },
        (DecoderState::Finalizing { written }, DecodeEvent::Finalized { ok, error_code }) => if ok {
            (DecoderState::Finished, DecodeAction::Return(written))
        } else {
            (DecoderState::Failed, DecodeAction::Fail(DecodeError::Engine { error_code }))
        },
        _ => (state, DecodeAction::Fail(DecodeError::ProtocolMisuse)),
    }
}

/// The state of a decoder after a run of events.
pub open spec fn state_after(state: DecoderState, events: Seq<DecodeEvent>) -> DecoderState
    decreases events.len(),
{
    if events.len() == 0 {
        state
    } else {
        decode_step(state_after(state, events.drop_last()), events.last()).0
    }
}

/// The action that ends a request with `result`.
pub open spec fn returning(result: Result<Region, DecodeError>) -> DecodeAction {
    match result {
        Ok(region) => DecodeAction::Return(region),
        Err(error) => DecodeAction::Fail(error),
    }
}

/// What one whole request does to a decoder in `state`, given what the engine
/// reports on it: the state it leaves and what the caller gets. The finalize
/// answer `ok`, `error_code` counts only if the engine reports the region
/// exhausted; otherwise it is never asked for.
pub open spec fn request_outcome(
    state: DecoderState,
    incomplete: bool,
    written: Region,
    ok: bool,
    error_code: i32,
) -> (DecoderState, Result<Region, DecodeError>) {
    match state {
        DecoderState::Open => if incomplete {
            (DecoderState::Open, Ok(written))
        } else if ok {
            (DecoderState::Finished, Ok(written))
        } else {
            (DecoderState::Failed, Err(DecodeError::Engine { error_code }))
        },
        _ => (state, Err(DecodeError::ProtocolMisuse)),
    }
}

/// The incremental decoder of one requested region.
#[derive(Debug)]
pub struct KakaduDecompressor {
    region: Region,
    scaled_width: u32,
    scaled_height: u32,
    state: DecoderState,
}

impl KakaduDecompressor {
    /// The region that this decoder was opened for.
    pub closed spec fn spec_region(&self) -> Region {
        self.region
    }

    /// The width of the output that the engine is asked to produce.
    pub closed spec fn spec_scaled_width(&self) -> u32 {
        self.scaled_width
    }

    /// The height of the output that the engine is asked to produce.
    pub closed spec fn spec_scaled_height(&self) -> u32 {
        self.scaled_height
    }

    /// Where the decoder stands.
    pub closed spec fn spec_state(&self) -> DecoderState {
        self.state
    }

    /// The region that this decoder was opened for.
    #[verifier::when_used_as_spec(spec_region)]
    pub fn region(&self) -> (region: Region)
        ensures
            region == self.spec_region(),
    {
        self.region
    }

    /// The width of the output that the engine is asked to produce.
    #[verifier::when_used_as_spec(spec_scaled_width)]
    pub fn scaled_width(&self) -> (width: u32)
        ensures
            width == self.spec_scaled_width(),
    {
        self.scaled_width
    }

    /// The height of the output that the engine is asked to produce.
    #[verifier::when_used_as_spec(spec_scaled_height)]
    pub fn scaled_height(&self) -> (height: u32)
        ensures
            height == self.spec_scaled_height(),
    {
        self.scaled_height
    }

    /// Where the decoder stands.
    #[verifier::when_used_as_spec(spec_state)]
    pub fn state(&self) -> (state: DecoderState)
        ensures
            state == self.spec_state(),
    {
        self.state
    }

    /// A decoder for `region` at the given output size, open and untouched.
    pub(crate) fn new(region: Region, scaled_width: u32, scaled_height: u32) -> (decoder: Self)
        ensures
            decoder.region() == region,
            decoder.scaled_width() == scaled_width,
            decoder.scaled_height() == scaled_height,
            decoder.state() == DecoderState::Open,
    {
        KakaduDecompressor { region, scaled_width, scaled_height, state: DecoderState::Open }
    }

    /// Takes one event and returns the action that it calls for, as
    /// [`decode_step`] defines it. The region and the output size stay.
    pub fn process(&mut self, event: DecodeEvent) -> (action: DecodeAction)
        ensures
            (final(self).state(), action) == decode_step(old(self).state(), event),
            final(self).region() == old(self).region(),
            final(self).scaled_width() == old(self).scaled_width(),
            final(self).scaled_height() == old(self).scaled_height(),
    {
        match (self.state, event) {
            (DecoderState::Open, DecodeEvent::Requested) => {
                self.state = DecoderState::Decoding;
                DecodeAction::RunEngine
            },
            (DecoderState::Decoding, DecodeEvent::Processed { incomplete, written }) => {
                if incomplete {
                    self.state = DecoderState::Open;
                    DecodeAction::Return(written)
                } else {
                    self.state = DecoderState::Finalizing { written };
                    DecodeAction::Finalize
                }
            },
            (DecoderState::Finalizing { written }, DecodeEvent::Finalized { ok, error_code }) => {
                if ok {
                    self.state = DecoderState::Finished;
                    DecodeAction::Return(written)
                } else {
                    self.state = DecoderState::Failed;
                    DecodeAction::Fail(DecodeError::Engine { error_code })
                }
            },
            _ => DecodeAction::Fail(DecodeError::ProtocolMisuse),
        }
    }
}

/// One whole request, event by event, comes to what [`request_outcome`] says:
/// from an open decoder the three steps of a request that exhausts the region,
/// or the two of one that does not, leave that state and return that result;
/// from any other state the request is refused at its first step.
pub proof fn lemma_request_outcome(
    state: DecoderState,
    incomplete: bool,
    written: Region,
    ok: bool,
    error_code: i32,
)
    ensures
        ({
            let (after, result) = request_outcome(state, incomplete, written, ok, error_code);
            let first = decode_step(state, DecodeEvent::Requested);
            let second = decode_step(first.0, DecodeEvent::Processed { incomplete, written });
            let third = decode_step(second.0, DecodeEvent::Finalized { ok, error_code });
            if !(state is Open) {
                first == (after, returning(result))
            } else if incomplete {
                first.1 == DecodeAction::RunEngine && second == (after, returning(result))
            } else {
                &&& first.1 == DecodeAction::RunEngine
                &&& second.1 == DecodeAction::Finalize
                &&& third == (after, returning(result))
            }
        }),
{
}

/// Once a decoder has finished or failed, every further event is refused as a
/// protocol misuse and the decoder stays as it is, however many events follow.
pub proof fn lemma_terminal_is_final(state: DecoderState, events: Seq<DecodeEvent>)
    requires
        state.is_terminal(),
    ensures
        state_after(state, events) == state,
        forall|event: DecodeEvent| #[trigger]
            decode_step(state_after(state, events), event) == (
                state,
                DecodeAction::Fail(DecodeError::ProtocolMisuse),
            ),
    decreases events.len(),
{
    if events.len() > 0 {
        lemma_terminal_is_final(state, events.drop_last());
    }
}

/// A request on a decoder that has finished or failed returns a protocol
/// misuse whatever the engine would report, and so does every request after
/// one that ended the decoder.
pub proof fn lemma_no_double_terminal(
    state: DecoderState,
    incomplete: bool,
    written: Region,
    ok: bool,
    error_code: i32,
    next_incomplete: bool,
    next_written: Region,
    next_ok: bool,
    next_error_code: i32,
)
    requires
        request_outcome(state, incomplete, written, ok, error_code).0.is_terminal(),
    ensures
        ({
            let ended = request_outcome(state, incomplete, written, ok, error_code).0;
            request_outcome(ended, next_incomplete, next_written, next_ok, next_error_code) == (
                ended,
                Err::<Region, DecodeError>(DecodeError::ProtocolMisuse),
            )
        }),
{
}

/// The region that a successful request returns is the one that the engine
/// reported for it. So for a requested region of at least one pixel inside
/// the image, if what the engine reports lies within the requested region,
/// then what a successful request returns lies within it too, and inside the
/// image. This holds of the request that finishes the decoder as of every one
/// before it.
pub proof fn lemma_returned_region_contained(
    requested: Region,
    image_width: u32,
    image_height: u32,
    incomplete: bool,
    written: Region,
    ok: bool,
    error_code: i32,
)
    requires
        requested.well_formed(),
        requested.fits(image_width, image_height),
        written.within(requested),
    ensures
        ({
            let (after, result) = request_outcome(
                DecoderState::Open,
                incomplete,
                written,
                ok,
                error_code,
            );
            &&& result is Ok <==> incomplete || ok
            &&& after is Finished <==> !incomplete && ok
            &&& result matches Ok(returned) ==> {
                &&& returned == written
                &&& returned.within(requested)
                &&& returned.fits(image_width, image_height)
            }
        }),
{
}

} // verus!
