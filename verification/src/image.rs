//! The session over one opened codestream.
//!
//! A session exists only for a codestream that the engine has accepted. It
//! remembers the header once the engine has parsed it, so that every query
//! for it gives the same answer, and it makes the decoders of regions.

use vstd::prelude::*;
use crate::decompressor::{DecoderState, KakaduDecompressor};
use crate::geometry::{Info, Region};

verus! {

/// The engine did not accept the content of the byte source as a codestream:
/// the source was empty, cut short, or held something else.
#[derive(Debug, Clone, Copy, PartialEq, Eq, Structural)]
pub struct CodecOpenError {}

impl CodecOpenError {
    /// The text that describes the failure to a reader.
    pub open spec fn spec_message(self) -> Seq<char> {
        "Kakadu could not open the codestream"@
    }

    /// Describes the failure in words.
    pub fn message(&self) -> (text: String)
        ensures
            text@ == self.spec_message(),
    {
        "Kakadu could not open the codestream".to_owned()
    }
}

/// What reaches a session about its header.
#[derive(Debug, Clone, Copy, PartialEq, Eq, Structural)]
pub enum HeaderEvent {
    /// The caller asks for the header.
    Requested,
    /// The engine has parsed the header.
    Parsed(Info),
}

/// What the owner of the engine handle does next about the header.
#[derive(Debug, Clone, Copy, PartialEq, Eq, Structural)]
pub enum HeaderAction {
    /// Ask the engine for the header and report back with
    /// [`HeaderEvent::Parsed`].
    QueryEngine,
    /// Give this header to the caller.
    Return(Info),
}

/// The transition of a session's header: what the session remembers after
/// `event` and the action that it calls for.
///
/// A session that remembers a header returns it, whatever the event. One that
/// does not sends a request on to the engine, and remembers and returns what
/// the engine has parsed.
pub open spec fn header_step(header: Option<Info>, event: HeaderEvent) -> (
    Option<Info>,
    HeaderAction,
) {
    match (header, event) {
        (Some(known), _) => (header, HeaderAction::Return(known)),
        (None, HeaderEvent::Requested) => (header, HeaderAction::QueryEngine),
        (None, HeaderEvent::Parsed(parsed)) => (Some(parsed), HeaderAction::Return(parsed)),
    }
}

/// What a session remembers of the header after a run of events.
pub open spec fn header_after(header: Option<Info>, events: Seq<HeaderEvent>) -> Option<Info>
    decreases events.len(),
{
    if events.len() == 0 {
        header
    } else {
        header_step(header_after(header, events.drop_last()), events.last()).0
    }
}

/// What one whole query for the header gives, where `parsed` is what the
/// engine would parse if it were asked: the header that the session remembers
/// afterwards, which is the one returned.
pub open spec fn query_outcome(header: Option<Info>, parsed: Info) -> Info {
    match header {
        Some(known) => known,
        None => parsed,
    }
}

/// The output size along one axis: the scaled target where one is given, else
/// the extent of the region itself.
pub open spec fn output_extent(target: Option<u32>, native: u32) -> u32 {
    match target {
        Some(scaled) => scaled,
        None => native,
    }
}

/// One opened codestream.
#[derive(Debug)]
pub struct KakaduImage {
    image_name: Option<String>,
    header: Option<Info>,
}

impl KakaduImage {
    /// The name that the session was opened under.
    pub closed spec fn spec_image_name(&self) -> Option<String> {
        self.image_name
    }

    /// The header that the session remembers, if the engine has parsed it.
    pub closed spec fn spec_header(&self) -> Option<Info> {
        self.header
    }

    /// The name that the session was opened under.
    pub fn image_name(&self) -> (name: &Option<String>)
        ensures
            *name == self.spec_image_name(),
    {
        &self.image_name
    }

    /// The header that the session remembers, if the engine has parsed it.
    #[verifier::when_used_as_spec(spec_header)]
    pub fn header(&self) -> (header: Option<Info>)
        ensures
            header == self.spec_header(),
    {
        self.header
    }

    /// Makes the session of a codestream that the engine was asked to open.
    /// There is a session if and only if the engine accepted the codestream;
    /// it carries the given name and remembers no header yet.
    pub fn new(engine_opened: bool, image_name: Option<String>) -> (session: Result<
        KakaduImage,
        CodecOpenError,
    >)
        ensures
            engine_opened ==> (session matches Ok(image) && image.spec_image_name() == image_name
                && image.header() == None::<Info>),
            !engine_opened ==> session == Err::<KakaduImage, CodecOpenError>(CodecOpenError {  }),
    {
        if engine_opened {
            Ok(KakaduImage { image_name, header: None })
        } else {
            Err(CodecOpenError {  })
        }
    }

    /// Takes one event about the header and returns the action that it calls
    /// for, as [`header_step`] defines it. The name stays.
    pub fn info(&mut self, event: HeaderEvent) -> (action: HeaderAction)
        ensures
            (final(self).header(), action) == header_step(old(self).header(), event),
            final(self).spec_image_name() == old(self).spec_image_name(),
    {
        match (self.header, event) {
            (Some(known), _) => HeaderAction::Return(known),
            (None, HeaderEvent::Requested) => HeaderAction::QueryEngine,
            (None, HeaderEvent::Parsed(parsed)) => {
                self.header = Some(parsed);
                HeaderAction::Return(parsed)
            },
        }
    }

    /// Opens a decoder for `region`. Nothing is checked: whether the region
    /// lies inside the image is for the engine to say. The decoder is open,
    /// scoped to the region, and its output has the scaled size where one is
    /// given and the size of the region where not. The session stays as it is.
    pub fn open_region(
        &mut self,
        region: Region,
        scaled_width: Option<u32>,
        scaled_height: Option<u32>,
    ) -> (decoder: KakaduDecompressor)
        ensures
            decoder.region() == region,
            decoder.scaled_width() == output_extent(scaled_width, region.width),
            decoder.scaled_height() == output_extent(scaled_height, region.height),
            decoder.state() == DecoderState::Open,
            *final(self) == *old(self),
    {
        let width = match scaled_width {
            Some(scaled) => scaled,
            None => region.width,
        };
        let height = match scaled_height {
            Some(scaled) => scaled,
            None => region.height,
        };
        KakaduDecompressor::new(region, width, height)
    }
}

/// One whole query, event by event, comes to what [`query_outcome`] says: a
/// session that remembers a header returns it at the request; one that does
/// not asks the engine, and returns and remembers what the engine parsed.
pub proof fn lemma_query_outcome(header: Option<Info>, parsed: Info)
    ensures
        ({
            let returned = query_outcome(header, parsed);
            let first = header_step(header, HeaderEvent::Requested);
            let second = header_step(first.0, HeaderEvent::Parsed(parsed));
            if header is Some {
                first == (Some(returned), HeaderAction::Return(returned))
            } else {
                first == (header, HeaderAction::QueryEngine) && second == (
                    Some(returned),
                    HeaderAction::Return(returned),
                )
            }
        }),
{
}

/// Once a session remembers a header, it remembers that header after any run
/// of events, and every event is answered with it.
pub proof fn lemma_header_is_stable(known: Info, events: Seq<HeaderEvent>)
    ensures
        header_after(Some(known), events) == Some(known),
        forall|event: HeaderEvent| #[trigger]
            header_step(header_after(Some(known), events), event) == (
                Some(known),
                HeaderAction::Return(known),
            ),
    decreases events.len(),
{
    if events.len() > 0 {
        lemma_header_is_stable(known, events.drop_last());
    }
}

/// Repeated queries on one session return the same header: whatever the
/// engine would parse at the first query and at a later one, and whatever
/// events lie between them, the later query returns what the first returned.
pub proof fn lemma_info_is_deterministic(
    header: Option<Info>,
    parsed: Info,
    between: Seq<HeaderEvent>,
    parsed_later: Info,
)
    ensures
        ({
            let first = query_outcome(header, parsed);
            let later = query_outcome(header_after(Some(first), between), parsed_later);
            later == first
        }),
{
    lemma_header_is_stable(query_outcome(header, parsed), between);
}

} // verus!
