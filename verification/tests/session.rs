use kaduceus::decompressor::DecoderState;
use kaduceus::geometry::{Info, Region};
use kaduceus::image::{CodecOpenError, HeaderAction, HeaderEvent, KakaduImage};
use kaduceus::reader::{AsyncReader, AsyncSeekableRead, IoError};

fn reference_info() -> Info {
    Info { width: 2717, height: 3701, tile_width: 2717, tile_height: 3701, dwt_levels: 5 }
}

fn other_info() -> Info {
    Info { width: 640, height: 480, tile_width: 64, tile_height: 64, dwt_levels: 3 }
}

/// Plays the part of the engine for one query: answers with `parsed` if it is
/// asked, and says whether it was.
fn query(image: &mut KakaduImage, parsed: Info) -> (Info, bool) {
    let mut event = HeaderEvent::Requested;
    let mut asked = false;
    loop {
        match image.info(event) {
            HeaderAction::QueryEngine => {
                asked = true;
                event = HeaderEvent::Parsed(parsed);
            }
            HeaderAction::Return(info) => return (info, asked),
        }
    }
}

/// A byte source that has nothing.
struct Empty;

impl AsyncSeekableRead for Empty {
    fn read(&mut self, _buffer: &mut [u8]) -> Result<usize, IoError> {
        Ok(0)
    }

    fn seek(&mut self, _position: u64) -> Result<u64, IoError> {
        Ok(0)
    }
}

#[test]
fn a_session_exists_only_if_the_engine_opened_the_codestream() {
    let opened = KakaduImage::new(true, Some("a.jp2".to_string()));
    assert!(opened.is_ok());
    let rejected = KakaduImage::new(false, Some("a.jp2".to_string()));
    assert_eq!(rejected.err(), Some(CodecOpenError {}));
    assert_eq!(KakaduImage::new(false, None).err(), Some(CodecOpenError {}));
}

#[test]
fn a_new_session_carries_its_name_and_no_header() {
    let image = KakaduImage::new(true, Some("a.jp2".to_string())).unwrap();
    assert_eq!(image.image_name(), &Some("a.jp2".to_string()));
    assert_eq!(image.header(), None);
    let unnamed = KakaduImage::new(true, None).unwrap();
    assert_eq!(unnamed.image_name(), &None);
}

#[test]
fn an_empty_source_reads_as_ended_and_opens_no_session() {
    let mut reader = AsyncReader::new(Empty);
    let mut buffer = [0u8; 64];
    assert_eq!(reader.read(&mut buffer), Ok(0));
    let engine_opened = false;
    assert_eq!(KakaduImage::new(engine_opened, None).err(), Some(CodecOpenError {}));
}

#[test]
fn the_open_error_describes_itself() {
    assert_eq!(CodecOpenError {}.message(), "Kakadu could not open the codestream");
}

#[test]
fn the_first_query_asks_the_engine() {
    let mut image = KakaduImage::new(true, None).unwrap();
    assert_eq!(image.info(HeaderEvent::Requested), HeaderAction::QueryEngine);
    assert_eq!(image.header(), None);
    assert_eq!(
        image.info(HeaderEvent::Parsed(reference_info())),
        HeaderAction::Return(reference_info())
    );
    assert_eq!(image.header(), Some(reference_info()));
}

#[test]
fn later_queries_return_the_remembered_header() {
    let mut image = KakaduImage::new(true, None).unwrap();
    assert_eq!(query(&mut image, reference_info()), (reference_info(), true));
    assert_eq!(query(&mut image, reference_info()), (reference_info(), false));
    assert_eq!(image.info(HeaderEvent::Requested), HeaderAction::Return(reference_info()));
}

#[test]
fn repeated_queries_return_the_same_header_whatever_is_parsed_later() {
    let mut image = KakaduImage::new(true, None).unwrap();
    let (first, _) = query(&mut image, reference_info());
    for _ in 0..4 {
        let (again, asked) = query(&mut image, other_info());
        assert_eq!(again, first);
        assert!(!asked);
    }
    assert_eq!(image.info(HeaderEvent::Parsed(other_info())), HeaderAction::Return(first));
    assert_eq!(image.header(), Some(first));
}

#[test]
fn a_region_opens_at_its_own_size_unless_a_scaled_one_is_given() {
    let mut image = KakaduImage::new(true, None).unwrap();
    let region = Region { x: 16, y: 32, width: 640, height: 480 };
    let native = image.open_region(region, None, None);
    assert_eq!(native.region(), region);
    assert_eq!((native.scaled_width(), native.scaled_height()), (640, 480));
    assert_eq!(native.state(), DecoderState::Open);
    let scaled = image.open_region(region, Some(320), Some(240));
    assert_eq!(scaled.region(), region);
    assert_eq!((scaled.scaled_width(), scaled.scaled_height()), (320, 240));
    let mixed = image.open_region(region, Some(80), None);
    assert_eq!((mixed.scaled_width(), mixed.scaled_height()), (80, 480));
}

#[test]
fn opening_a_region_checks_nothing_and_leaves_the_session_alone() {
    let mut image = KakaduImage::new(true, Some("a.jp2".to_string())).unwrap();
    query(&mut image, other_info());
    let outside = Region { x: 4_000_000_000, y: 4_000_000_000, width: u32::MAX, height: 0 };
    let decoder = image.open_region(outside, Some(0), None);
    assert_eq!(decoder.region(), outside);
    assert_eq!(decoder.state(), DecoderState::Open);
    assert_eq!(image.header(), Some(other_info()));
    assert_eq!(image.image_name(), &Some("a.jp2".to_string()));
}

#[test]
fn the_default_region_is_empty_at_the_origin() {
    assert_eq!(Region::default(), Region { x: 0, y: 0, width: 0, height: 0 });
}

#[test]
fn image_info_test_reference_image() {
    let mut image = KakaduImage::new(true, Some("reference.jp2".to_string())).unwrap();
    let (info, _) = query(&mut image, reference_info());
    assert_eq!(
        info,
        Info { width: 2717, height: 3701, tile_width: 2717, tile_height: 3701, dwt_levels: 5 }
    );
    assert_eq!(
        format!("{:?}", info),
        "Info { width: 2717, height: 3701, tile_width: 2717, tile_height: 3701, dwt_levels: 5 }"
    );
}
