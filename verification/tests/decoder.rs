use kaduceus::decompressor::{
    DecodeAction, DecodeError, DecodeEvent, DecoderState, KakaduDecompressor,
};
use kaduceus::geometry::Region;
use kaduceus::image::KakaduImage;

fn region(x: u32, y: u32, width: u32, height: u32) -> Region {
    Region { x, y, width, height }
}

fn open(requested: Region) -> KakaduDecompressor {
    let mut image = KakaduImage::new(true, None).unwrap();
    image.open_region(requested, None, None)
}

/// Plays the part of the engine for one request: performs the actions that
/// the decoder calls for, answering with the given reports.
fn request(
    decoder: &mut KakaduDecompressor,
    incomplete: bool,
    written: Region,
    finalize: (bool, i32),
) -> Result<Region, DecodeError> {
    let mut event = DecodeEvent::Requested;
    loop {
        match decoder.process(event) {
            DecodeAction::RunEngine => event = DecodeEvent::Processed { incomplete, written },
            DecodeAction::Finalize => {
                event = DecodeEvent::Finalized { ok: finalize.0, error_code: finalize.1 }
            }
            DecodeAction::Return(region) => return Ok(region),
            DecodeAction::Fail(error) => return Err(error),
        }
    }
}

fn within(inner: Region, outer: Region) -> bool {
    outer.x <= inner.x
        && outer.y <= inner.y
        && inner.x as u64 + inner.width as u64 <= outer.x as u64 + outer.width as u64
        && inner.y as u64 + inner.height as u64 <= outer.y as u64 + outer.height as u64
}

#[test]
fn a_new_decoder_is_open() {
    let decoder = open(region(1, 2, 30, 40));
    assert_eq!(decoder.state(), DecoderState::Open);
    assert_eq!(decoder.region(), region(1, 2, 30, 40));
}

#[test]
fn a_request_starts_the_engine() {
    let mut decoder = open(region(0, 0, 8, 8));
    assert_eq!(decoder.process(DecodeEvent::Requested), DecodeAction::RunEngine);
    assert_eq!(decoder.state(), DecoderState::Decoding);
}

#[test]
fn pending_data_returns_the_written_region_and_leaves_the_decoder_open() {
    let mut decoder = open(region(0, 0, 8, 8));
    decoder.process(DecodeEvent::Requested);
    let action =
        decoder.process(DecodeEvent::Processed { incomplete: true, written: region(0, 0, 8, 2) });
    assert_eq!(action, DecodeAction::Return(region(0, 0, 8, 2)));
    assert_eq!(decoder.state(), DecoderState::Open);
}

#[test]
fn an_exhausted_region_calls_for_finalize_at_once() {
    let mut decoder = open(region(0, 0, 8, 8));
    decoder.process(DecodeEvent::Requested);
    let action =
        decoder.process(DecodeEvent::Processed { incomplete: false, written: region(0, 6, 8, 2) });
    assert_eq!(action, DecodeAction::Finalize);
    assert_eq!(decoder.state(), DecoderState::Finalizing { written: region(0, 6, 8, 2) });
}

#[test]
fn a_good_finalize_returns_the_written_region_and_finishes() {
    let mut decoder = open(region(0, 0, 8, 8));
    decoder.process(DecodeEvent::Requested);
    decoder.process(DecodeEvent::Processed { incomplete: false, written: region(0, 6, 8, 2) });
    let action = decoder.process(DecodeEvent::Finalized { ok: true, error_code: 0 });
    assert_eq!(action, DecodeAction::Return(region(0, 6, 8, 2)));
    assert_eq!(decoder.state(), DecoderState::Finished);
}

#[test]
fn a_bad_finalize_fails_with_the_code_of_the_engine() {
    let mut decoder = open(region(0, 0, 8, 8));
    decoder.process(DecodeEvent::Requested);
    decoder.process(DecodeEvent::Processed { incomplete: false, written: region(0, 6, 8, 2) });
    let action = decoder.process(DecodeEvent::Finalized { ok: false, error_code: -7 });
    assert_eq!(action, DecodeAction::Fail(DecodeError::Engine { error_code: -7 }));
    assert_eq!(decoder.state(), DecoderState::Failed);
}

#[test]
fn a_region_is_drained_in_several_requests() {
    let requested = region(0, 0, 8, 8);
    let mut decoder = open(requested);
    assert_eq!(request(&mut decoder, true, region(0, 0, 8, 3), (true, 0)), Ok(region(0, 0, 8, 3)));
    assert_eq!(request(&mut decoder, true, region(0, 3, 8, 3), (true, 0)), Ok(region(0, 3, 8, 3)));
    assert_eq!(decoder.state(), DecoderState::Open);
    assert_eq!(request(&mut decoder, false, region(0, 6, 8, 2), (true, 0)), Ok(region(0, 6, 8, 2)));
    assert_eq!(decoder.state(), DecoderState::Finished);
}

#[test]
fn finalize_is_not_asked_while_data_is_pending() {
    let mut decoder = open(region(0, 0, 8, 8));
    let returned = request(&mut decoder, true, region(0, 0, 8, 3), (false, 99));
    assert_eq!(returned, Ok(region(0, 0, 8, 3)));
    assert_eq!(decoder.state(), DecoderState::Open);
}

#[test]
fn a_finished_decoder_refuses_every_further_event() {
    let mut decoder = open(region(0, 0, 8, 8));
    assert_eq!(request(&mut decoder, false, region(0, 0, 8, 8), (true, 0)), Ok(region(0, 0, 8, 8)));
    let events = [
        DecodeEvent::Requested,
        DecodeEvent::Processed { incomplete: true, written: region(0, 0, 1, 1) },
        DecodeEvent::Processed { incomplete: false, written: region(0, 0, 1, 1) },
        DecodeEvent::Finalized { ok: true, error_code: 0 },
        DecodeEvent::Finalized { ok: false, error_code: 3 },
        DecodeEvent::Requested,
    ];
    for event in events {
        assert_eq!(decoder.process(event), DecodeAction::Fail(DecodeError::ProtocolMisuse));
        assert_eq!(decoder.state(), DecoderState::Finished);
    }
}

#[test]
fn a_failed_decoder_refuses_every_further_request() {
    let mut decoder = open(region(0, 0, 8, 8));
    assert_eq!(
        request(&mut decoder, false, region(0, 0, 8, 8), (false, 12)),
        Err(DecodeError::Engine { error_code: 12 })
    );
    for _ in 0..3 {
        assert_eq!(
            request(&mut decoder, true, region(0, 0, 8, 8), (true, 0)),
            Err(DecodeError::ProtocolMisuse)
        );
        assert_eq!(decoder.state(), DecoderState::Failed);
    }
}

#[test]
fn an_event_out_of_turn_is_refused_and_changes_nothing() {
    let mut decoder = open(region(0, 0, 8, 8));
    let misuse = DecodeAction::Fail(DecodeError::ProtocolMisuse);
    assert_eq!(decoder.process(DecodeEvent::Finalized { ok: true, error_code: 0 }), misuse);
    assert_eq!(
        decoder.process(DecodeEvent::Processed { incomplete: false, written: region(0, 0, 8, 8) }),
        misuse
    );
    assert_eq!(decoder.state(), DecoderState::Open);

    decoder.process(DecodeEvent::Requested);
    assert_eq!(decoder.process(DecodeEvent::Requested), misuse);
    assert_eq!(decoder.process(DecodeEvent::Finalized { ok: true, error_code: 0 }), misuse);
    assert_eq!(decoder.state(), DecoderState::Decoding);

    decoder.process(DecodeEvent::Processed { incomplete: false, written: region(0, 0, 8, 8) });
    assert_eq!(decoder.process(DecodeEvent::Requested), misuse);
    assert_eq!(
        decoder.process(DecodeEvent::Processed { incomplete: true, written: region(0, 0, 1, 1) }),
        misuse
    );
    assert_eq!(decoder.state(), DecoderState::Finalizing { written: region(0, 0, 8, 8) });
    assert_eq!(
        decoder.process(DecodeEvent::Finalized { ok: true, error_code: 0 }),
        DecodeAction::Return(region(0, 0, 8, 8))
    );
}

#[test]
fn a_failure_is_scoped_to_its_decoder() {
    let mut image = KakaduImage::new(true, None).unwrap();
    let mut failed = image.open_region(region(0, 0, 8, 8), None, None);
    assert_eq!(
        request(&mut failed, false, region(0, 0, 8, 8), (false, 5)),
        Err(DecodeError::Engine { error_code: 5 })
    );
    let mut fresh = image.open_region(region(0, 0, 8, 8), None, None);
    assert_eq!(fresh.state(), DecoderState::Open);
    assert_eq!(request(&mut fresh, false, region(0, 0, 8, 8), (true, 0)), Ok(region(0, 0, 8, 8)));
}

#[test]
fn the_returned_region_is_the_one_the_engine_wrote() {
    let requested = region(10, 20, 100, 50);
    let mut decoder = open(requested);
    let written = [region(10, 20, 100, 16), region(10, 36, 100, 16), region(10, 52, 100, 18)];
    for (index, part) in written.iter().enumerate() {
        let last = index + 1 == written.len();
        let returned = request(&mut decoder, !last, *part, (true, 0)).unwrap();
        assert_eq!(returned, *part);
        assert!(within(returned, requested));
    }
    assert_eq!(decoder.state(), DecoderState::Finished);
}

#[test]
fn the_region_and_the_output_size_stay_through_a_decode() {
    let mut image = KakaduImage::new(true, None).unwrap();
    let mut decoder = image.open_region(region(4, 4, 64, 32), Some(16), Some(8));
    request(&mut decoder, true, region(0, 0, 16, 4), (true, 0)).unwrap();
    request(&mut decoder, false, region(0, 4, 16, 4), (true, 0)).unwrap();
    assert_eq!(decoder.region(), region(4, 4, 64, 32));
    assert_eq!(decoder.scaled_width(), 16);
    assert_eq!(decoder.scaled_height(), 8);
}

#[test]
fn decode_errors_describe_themselves() {
    assert_eq!(DecodeError::Engine { error_code: 3 }.message(), "Kakadu Decompression error");
    assert_eq!(
        DecodeError::ProtocolMisuse.message(),
        "Kakadu decompressor was handed an event that it did not await"
    );
}

#[test]
fn decompression_test_reference_image() {
    let mut image = KakaduImage::new(true, Some("reference.jp2".to_string())).unwrap();
    let full = region(0, 0, 2717, 3701);
    let mut decompressor = image.open_region(full, None, None);
    let finished = request(&mut decompressor, false, full, (true, 0)).expect("failed");
    assert_eq!(finished, region(0, 0, 2717, 3701));
    assert_eq!(decompressor.state(), DecoderState::Finished);
}
