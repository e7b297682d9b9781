use ftwrap::engine::{EngineCall, EngineReply, Error, IoStep, LcdFilter, RenderMode};
use ftwrap::face::{CapHeight, Face, FaceRecord, Os2Table, Sizing};
use ftwrap::glyph::{GlyphRequest, GlyphStep};
use ftwrap::library::{FaceOpening, Library, PROBE_FACE_INDEX};
use ftwrap::load_flags::{FreeTypeConfig, FreeTypeLoadTarget};
use ftwrap::source::{FontDataHandle, FontDataSource, FontOrigin};
use ftwrap::stream::{OpenedPath, PathProbe, StreamBacking};
use std::sync::Arc;

fn config(interpreter_version: Option<u32>) -> FreeTypeConfig {
    FreeTypeConfig {
        load_flags: 0,
        load_target: FreeTypeLoadTarget::Normal,
        render_target: None,
        interpreter_version,
    }
}

fn library() -> Library {
    Library::new(EngineReply::ok(), &config(None), 1000).unwrap().0
}

fn failed(status: i32, reason: &str) -> EngineReply {
    EngineReply { status, reason: Some(String::from(reason)), glyph_index: 0, y_scale: 0, advance: 0 }
}

fn handle(index: u32, variation: u32) -> FontDataHandle {
    FontDataHandle {
        source: FontDataSource::OnDisk(String::from("/fonts/collection.ttc")),
        index,
        variation,
        origin: FontOrigin::FontConfig,
    }
}

fn record() -> FaceRecord {
    FaceRecord {
        family_name: Some(String::from("Example Sans")),
        style_name: Some(String::from("Bold Italic")),
        postscript_name: Some(String::from("ExampleSans-BoldItalic")),
        style_flags: 3,
        face_index: 0,
        units_per_em: 2000,
        height: 1200,
        available_sizes: Vec::new(),
        os2: Some(Os2Table { us_weight_class: 700, us_width_class: 5, s_cap_height: 1400 }),
        mm_var: None,
    }
}

fn nameless() -> FaceRecord {
    FaceRecord { family_name: None, style_name: None, postscript_name: None, style_flags: 0, os2: None, ..record() }
}

fn face(record: FaceRecord) -> Face {
    Face::new(record, handle(0, 0))
}

#[test]
fn engine_starts_with_the_default_lcd_filter() {
    let (lib, calls) = Library::new(EngineReply::ok(), &config(None), 77).unwrap();
    assert_eq!(lib, Library { max_stream_len: 77, lcd_filter: None });
    assert_eq!(calls, vec![EngineCall::SetLcdFilter { filter: LcdFilter::Default }]);
}

#[test]
fn interpreter_version_is_set_first() {
    let (_, calls) = Library::new(EngineReply::ok(), &config(Some(35)), 77).unwrap();
    assert_eq!(
        calls,
        vec![
            EngineCall::SetInterpreterVersion { version: 35 },
            EngineCall::SetLcdFilter { filter: LcdFilter::Default },
        ]
    );
}

#[test]
fn failed_initialisation_gives_no_engine() {
    let r = Library::new(failed(0x40, "out of memory"), &config(Some(40)), 77);
    assert_eq!(r, Err(Error::EngineInitError { code: 0x40, reason: Some(String::from("out of memory")) }));
    let r = Library::new(EngineReply::with_status(-1), &config(None), 77);
    assert_eq!(r, Err(Error::EngineInitError { code: -1, reason: None }));
}

#[test]
fn startup_failures_never_fail_the_startup() {
    let mut lib = library();
    let version = EngineCall::SetInterpreterVersion { version: 35 };
    let filter = EngineCall::SetLcdFilter { filter: LcdFilter::Default };
    // a refused interpreter version goes to the log
    assert_eq!(
        lib.startup_reply(version, failed(0xc, "missing property")),
        Some(Error::EngineCallFailure { call: version, code: 0xc, reason: Some(String::from("missing property")) })
    );
    assert_eq!(lib, library());
    assert_eq!(lib.startup_reply(version, EngineReply::ok()), None);
    assert_eq!(lib, library());
    // a refused filter is expected and says nothing
    assert_eq!(lib.startup_reply(filter, failed(7, "unimplemented feature")), None);
    assert_eq!(lib.lcd_filter, None);
    assert_eq!(lib.startup_reply(filter, EngineReply::ok()), None);
    assert_eq!(lib.lcd_filter, Some(LcdFilter::Default));
    // other calls are no part of the startup
    assert_eq!(lib.startup_reply(EngineCall::SelectSize { strike_index: 0 }, failed(1, "x")), None);
    assert_eq!(lib.lcd_filter, Some(LcdFilter::Default));
}

#[test]
fn set_lcd_filter_reports_its_failure() {
    let mut lib = library();
    assert_eq!(
        lib.set_lcd_filter(LcdFilter::Light, EngineReply::with_status(7)),
        Err(Error::EngineCallFailure {
            call: EngineCall::SetLcdFilter { filter: LcdFilter::Light },
            code: 7,
            reason: None
        })
    );
    assert_eq!(lib.lcd_filter, None);
    assert_eq!(lib.set_lcd_filter(LcdFilter::Legacy, EngineReply::ok()), Ok(()));
    assert_eq!(lib.lcd_filter, Some(LcdFilter::Legacy));
    assert_eq!(lib.set_lcd_filter(LcdFilter::Disabled, EngineReply::ok()), Ok(()));
    assert_eq!(lib.lcd_filter, Some(LcdFilter::Disabled));
    assert!(lib.set_lcd_filter(LcdFilter::Default, EngineReply::with_status(1)).is_err());
    assert_eq!(lib.lcd_filter, Some(LcdFilter::Disabled));
    assert_eq!(lib.max_stream_len, 1000);
}

#[test]
fn container_is_probed_at_index_minus_one() {
    assert_eq!(PROBE_FACE_INDEX, -1);
}

#[test]
fn query_num_faces_reports_the_count() {
    let lib = library();
    assert_eq!(lib.query_num_faces(Ok(1)), Ok(1));
    assert_eq!(lib.query_num_faces(Ok(12)), Ok(12));
    assert_eq!(lib.query_num_faces(Ok(0)), Ok(0));
    assert_eq!(lib.query_num_faces(Ok(u32::MAX as i64)), Ok(u32::MAX));
}

#[test]
fn query_num_faces_refuses_counts_out_of_range() {
    let lib = library();
    assert_eq!(lib.query_num_faces(Ok(-1)), Err(Error::InvalidFaceCount { num_faces: -1 }));
    assert_eq!(
        lib.query_num_faces(Ok(u32::MAX as i64 + 1)),
        Err(Error::InvalidFaceCount { num_faces: 0x1_0000_0000 })
    );
    assert_eq!(lib.query_num_faces(Ok(i64::MIN)), Err(Error::InvalidFaceCount { num_faces: i64::MIN }));
}

#[test]
fn query_num_faces_reports_the_failed_probe() {
    let lib = library();
    assert_eq!(
        lib.query_num_faces(Err(failed(2, "unknown file format"))),
        Err(Error::EngineCallFailure {
            call: EngineCall::OpenFace { face_index: -1 },
            code: 2,
            reason: Some(String::from("unknown file format"))
        })
    );
}

#[test]
fn face_index_holds_the_variation_in_its_upper_bits() {
    assert_eq!(Library::face_index(&handle(0, 0)), 0);
    assert_eq!(Library::face_index(&handle(3, 0)), 3);
    assert_eq!(Library::face_index(&handle(0, 1)), 0x1_0000);
    assert_eq!(Library::face_index(&handle(2, 5)), 0x5_0002);
    assert_eq!(Library::face_index(&handle(0xffff, 0x7fff)), 0x7fff_ffff);
    // the index is an unsigned 32-bit number that the engine reads as a
    // wider signed one
    assert_eq!(Library::face_index(&handle(0, 0x8000)), 0x8000_0000);
    assert_eq!(Library::face_index(&handle(u32::MAX, 0)), 0xffff_ffff);
    assert_eq!(Library::face_index(&handle(0x1_0001, 1)), 0x1_0001);
    assert_eq!(Library::face_index(&handle(1, 0x1_0002)), 0x2_0001);
}

#[test]
fn face_opened_under_its_index_finds_its_variation() {
    let lib = library();
    let handle = handle(2, 5);
    let opened = FaceRecord { face_index: Library::face_index(&handle), ..record() };
    let face = lib.face_from_locator(&handle, Ok(opened)).unwrap();
    assert_eq!(face.variation(), 5);
}

#[test]
fn face_from_locator_wraps_the_record() {
    let lib = library();
    let face = lib.face_from_locator(&handle(1, 0), Ok(record())).unwrap();
    assert_eq!(face, Face { face: record(), source: handle(1, 0), size: None, sizing: Sizing::Idle });
}

#[test]
fn face_from_locator_reports_the_failed_open() {
    let lib = library();
    let r = lib.face_from_locator(&handle(1, 2), Err(failed(6, "invalid argument")));
    assert_eq!(
        r,
        Err(Error::EngineCallFailure {
            call: EngineCall::OpenFace { face_index: 0x2_0001 },
            code: 6,
            reason: Some(String::from("invalid argument"))
        })
    );
}

#[test]
fn new_face_builds_the_stream_and_names_the_call() {
    let lib = library();
    let data: Arc<Box<[u8]>> = Arc::new(vec![0u8; 1000].into_boxed_slice());
    let source = FontDataSource::Memory { name: String::from("m"), data };
    match lib.new_face::<(), ()>(&source, 0x3_0001).unwrap() {
        FaceOpening::Ready { stream, call } => {
            assert_eq!(call, EngineCall::OpenFace { face_index: 0x3_0001 });
            assert_eq!(stream.stream.size, 1000);
            assert!(matches!(stream.backing, StreamBacking::Memory(_)));
        }
        other => panic!("no stream: {:?}", other),
    }
}

#[test]
fn new_face_names_no_call_for_a_file_it_has_not_seen() {
    let lib = library();
    let disk = FontDataSource::OnDisk(String::from("/p"));
    assert_eq!(lib.new_face::<(), ()>(&disk, -1), Ok(FaceOpening::OnDisk { path: String::from("/p") }));
}

#[test]
fn new_face_refuses_what_the_engine_cannot_address() {
    let lib = library();
    let data: Arc<Box<[u8]>> = Arc::new(vec![0u8; 1001].into_boxed_slice());
    let source = FontDataSource::Memory { name: String::from("m"), data };
    assert_eq!(
        lib.new_face::<(), ()>(&source, 0),
        Err(Error::SourceTooLarge { name: String::from("m"), len: 1001 })
    );
}

#[test]
fn new_face_on_disk_names_the_call_for_a_checked_file() {
    let lib = library();
    let found = PathProbe::Opened { file: 7u8, is_file: true, len: 1000 };
    let (opened, call) = lib.new_face_on_disk::<u8, ()>(String::from("/fonts/a.ttc"), found, 0x2_0001).unwrap();
    assert_eq!(call, EngineCall::OpenFace { face_index: 0x2_0001 });
    assert_eq!(opened, OpenedPath { name: String::from("/fonts/a.ttc"), file: 7, len: 1000 });
}

#[test]
fn new_face_on_disk_refuses_before_any_call() {
    let lib = library();
    let name = || String::from("/fonts/a.ttc");
    let too_long = PathProbe::Opened { file: 7u8, is_file: true, len: 1001 };
    assert_eq!(
        lib.new_face_on_disk::<u8, ()>(name(), too_long, 0),
        Err(Error::SourceTooLarge { name: name(), len: 1001 })
    );
    let directory = PathProbe::Opened { file: 7u8, is_file: false, len: 10 };
    assert_eq!(lib.new_face_on_disk::<u8, ()>(name(), directory, 0), Err(Error::NotAFile { name: name() }));
    let missing = PathProbe::OpenFailed { os_error: Some(2) };
    assert_eq!(
        lib.new_face_on_disk::<u8, ()>(name(), missing, 0),
        Err(Error::IOError { name: name(), step: IoStep::Open, os_error: Some(2) })
    );
    let unreadable = PathProbe::MetadataFailed { os_error: Some(13) };
    assert_eq!(
        lib.new_face_on_disk::<u8, ()>(name(), unreadable, 0),
        Err(Error::IOError { name: name(), step: IoStep::Metadata, os_error: Some(13) })
    );
}

#[test]
fn names_of_a_face() {
    let face = face(record());
    assert_eq!(face.family_name(), "Example Sans");
    assert_eq!(face.style_name(), "Bold Italic");
    assert_eq!(face.postscript_name(), "ExampleSans-BoldItalic");
}

#[test]
fn missing_names_are_empty() {
    let face = face(nameless());
    assert_eq!(face.family_name(), "");
    assert_eq!(face.style_name(), "");
    assert_eq!(face.postscript_name(), "");
}

#[test]
fn italic_is_the_lowest_style_flag() {
    assert!(face(record()).italic());
    assert!(!face(nameless()).italic());
    assert!(face(FaceRecord { style_flags: 1, ..record() }).italic());
    // bold alone is not italic
    assert!(!face(FaceRecord { style_flags: 2, ..record() }).italic());
    assert!(face(FaceRecord { style_flags: -1, ..record() }).italic());
    assert!(!face(FaceRecord { style_flags: i64::MIN, ..record() }).italic());
}

#[test]
fn os2_table_of_a_face() {
    assert_eq!(
        face(record()).get_os2_table(),
        Some(&Os2Table { us_weight_class: 700, us_width_class: 5, s_cap_height: 1400 })
    );
    assert_eq!(face(nameless()).get_os2_table(), None);
}

#[test]
fn cap_height_is_a_share_of_the_em() {
    assert_eq!(face(record()).cap_height(), Some(CapHeight { cap_height: 1400, units_per_em: 2000 }));
    let negative = Os2Table { us_weight_class: 400, us_width_class: 5, s_cap_height: -3 };
    assert_eq!(
        face(FaceRecord { os2: Some(negative), ..record() }).cap_height(),
        Some(CapHeight { cap_height: -3, units_per_em: 2000 })
    );
}

#[test]
fn cap_height_is_unknown_without_its_parts() {
    assert_eq!(face(nameless()).cap_height(), None);
    assert_eq!(face(FaceRecord { units_per_em: 0, ..record() }).cap_height(), None);
    let flat = Os2Table { us_weight_class: 400, us_width_class: 5, s_cap_height: 0 };
    assert_eq!(face(FaceRecord { os2: Some(flat), ..record() }).cap_height(), None);
}

#[test]
fn weight_and_width_of_a_static_face() {
    assert_eq!(face(record()).weight_and_width(), (700, 5));
}

#[test]
fn glyph_is_loaded_and_then_rendered() {
    let mut face = face(record());
    let (mut request, call) = face.load_and_render_glyph(42, 0x10_0000, RenderMode::Lcd);
    assert_eq!(call, EngineCall::LoadGlyph { glyph_index: 42, load_flags: 0x10_0000 });
    assert_eq!(
        request,
        GlyphRequest { glyph_index: 42, load_flags: 0x10_0000, render_mode: RenderMode::Lcd, loaded: false }
    );
    assert_eq!(
        request.reply(EngineReply::ok()),
        GlyphStep::Call(EngineCall::RenderGlyph { render_mode: RenderMode::Lcd })
    );
    assert!(request.loaded);
    assert_eq!(request.reply(EngineReply::ok()), GlyphStep::Done(Ok(())));
}

#[test]
fn glyph_that_fails_to_load_is_not_rendered() {
    let mut face = face(record());
    let (mut request, call) = face.load_and_render_glyph(42, 8, RenderMode::Normal);
    assert_eq!(
        request.reply(failed(0x10, "invalid glyph index")),
        GlyphStep::Done(Err(Error::EngineCallFailure {
            call,
            code: 0x10,
            reason: Some(String::from("invalid glyph index"))
        }))
    );
    assert!(!request.loaded);
}

#[test]
fn glyph_that_fails_to_render_is_an_error() {
    let mut face = face(record());
    let (mut request, _) = face.load_and_render_glyph(7, 0, RenderMode::Mono);
    assert!(matches!(request.reply(EngineReply::ok()), GlyphStep::Call(_)));
    assert_eq!(
        request.reply(EngineReply::with_status(0x13)),
        GlyphStep::Done(Err(Error::EngineCallFailure {
            call: EngineCall::RenderGlyph { render_mode: RenderMode::Mono },
            code: 0x13,
            reason: None
        }))
    );
}
