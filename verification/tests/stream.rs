use ftwrap::engine::{Error, IoStep};
use ftwrap::source::{FontDataHandle, FontDataSource, FontOrigin};
use ftwrap::stream::{
    bytes_read, FreeTypeStream, OpenedPath, PathProbe, ReadOutcome, ReadPlan, SourceStream, StreamBacking,
    StreamDescriptor,
};
use std::cell::Cell;
use std::rc::Rc;
use std::sync::Arc;

/// Stands for a file or a mapping, and counts how often one is let go.
#[derive(Debug)]
struct Counted {
    id: u32,
    released: Rc<Cell<u32>>,
}

impl PartialEq for Counted {
    fn eq(&self, other: &Counted) -> bool {
        self.id == other.id
    }
}

impl Drop for Counted {
    fn drop(&mut self) {
        self.released.set(self.released.get() + 1);
    }
}

type Stream = FreeTypeStream<Counted, Counted>;

static BUILT_IN: [u8; 5] = [0, 1, 0, 0, 0];

fn built_in() -> FontDataSource {
    FontDataSource::BuiltIn { name: String::from("built-in.ttf"), data: &BUILT_IN }
}

fn memory(len: usize) -> (FontDataSource, Arc<Box<[u8]>>) {
    let data: Arc<Box<[u8]>> = Arc::new(vec![7u8; len].into_boxed_slice());
    (FontDataSource::Memory { name: String::from("shared.otf"), data: Arc::clone(&data) }, data)
}

fn opened(id: u32, is_file: bool, len: u64, released: &Rc<Cell<u32>>) -> PathProbe<Counted> {
    PathProbe::Opened { file: Counted { id, released: Rc::clone(released) }, is_file, len }
}

fn direct(size: u64) -> StreamDescriptor {
    StreamDescriptor { size, direct: true, read: false, close: true }
}

#[test]
fn built_in_source_is_read_by_address() {
    let stream = match Stream::from_source(&built_in(), u64::MAX) {
        Ok(SourceStream::Ready(stream)) => stream,
        other => panic!("no stream: {:?}", other),
    };
    assert_eq!(stream.stream, direct(5));
    assert_eq!(stream.name, "built-in.ttf");
    match stream.backing {
        StreamBacking::Static(data) => assert_eq!(data.as_ptr(), BUILT_IN.as_ptr()),
        other => panic!("wrong backing: {:?}", other),
    }
}

#[test]
fn memory_source_shares_its_buffer() {
    let (source, data) = memory(1000);
    assert_eq!(Arc::strong_count(&data), 2);
    let stream = match Stream::from_source(&source, u64::MAX) {
        Ok(SourceStream::Ready(stream)) => stream,
        other => panic!("no stream: {:?}", other),
    };
    assert_eq!(stream.stream, direct(1000));
    assert_eq!(stream.name, "shared.otf");
    // the stream holds the same buffer, not a copy of it
    assert_eq!(Arc::strong_count(&data), 3);
    match &stream.backing {
        StreamBacking::Memory(held) => assert!(Arc::ptr_eq(held, &data)),
        other => panic!("wrong backing: {:?}", other),
    }
}

#[test]
fn closing_releases_a_shared_buffer_exactly_once() {
    let (source, data) = memory(16);
    let before = Arc::strong_count(&data);
    let stream = match Stream::from_source(&source, u64::MAX) {
        Ok(SourceStream::Ready(stream)) => stream,
        other => panic!("no stream: {:?}", other),
    };
    assert_eq!(Arc::strong_count(&data), before + 1);
    let backing = stream.close();
    assert_eq!(Arc::strong_count(&data), before + 1);
    drop(backing);
    assert_eq!(Arc::strong_count(&data), before);
}

#[test]
fn closing_releases_a_file_exactly_once() {
    let released = Rc::new(Cell::new(0));
    let path = Stream::open_path(String::from("/fonts/a.ttf"), opened(1, true, 10, &released), u64::MAX).unwrap();
    let stream: Stream = path.backed_by(None);
    assert_eq!(released.get(), 0);
    let backing = stream.close();
    assert_eq!(released.get(), 0);
    drop(backing);
    assert_eq!(released.get(), 1);
}

#[test]
fn closing_releases_a_mapping_exactly_once() {
    let files = Rc::new(Cell::new(0));
    let maps = Rc::new(Cell::new(0));
    let path = Stream::open_path(String::from("/fonts/a.ttf"), opened(1, true, 10, &files), u64::MAX).unwrap();
    let stream: Stream = path.backed_by(Some(Counted { id: 2, released: Rc::clone(&maps) }));
    // a mapped file is let go at once, the mapping is kept
    assert_eq!(files.get(), 1);
    assert_eq!(maps.get(), 0);
    drop(stream.close());
    assert_eq!(files.get(), 1);
    assert_eq!(maps.get(), 1);
}

#[test]
fn refused_file_is_released_exactly_once() {
    let released = Rc::new(Cell::new(0));
    let r = Stream::open_path(String::from("/dev/null"), opened(1, false, 0, &released), u64::MAX);
    assert_eq!(r, Err(Error::NotAFile { name: String::from("/dev/null") }));
    assert_eq!(released.get(), 1);
    let r = Stream::open_path(String::from("/big"), opened(1, true, 11, &released), 10);
    assert_eq!(r, Err(Error::SourceTooLarge { name: String::from("/big"), len: 11 }));
    assert_eq!(released.get(), 2);
}

#[test]
fn oversized_memory_source_is_refused() {
    let (source, _) = memory(11);
    let r = Stream::from_source(&source, 10);
    assert_eq!(r, Err(Error::SourceTooLarge { name: String::from("shared.otf"), len: 11 }));
    let r = Stream::from_source(&built_in(), 4);
    assert_eq!(r, Err(Error::SourceTooLarge { name: String::from("built-in.ttf"), len: 5 }));
}

#[test]
fn source_at_the_limit_is_accepted() {
    let (source, _) = memory(10);
    assert!(matches!(Stream::from_source(&source, 10), Ok(SourceStream::Ready(_))));
    assert!(matches!(Stream::from_source(&built_in(), 5), Ok(SourceStream::Ready(_))));
    let (empty, _) = memory(0);
    let stream = match Stream::from_source(&empty, 0) {
        Ok(SourceStream::Ready(stream)) => stream,
        other => panic!("no stream: {:?}", other),
    };
    assert_eq!(stream.stream, direct(0));
}

#[test]
fn oversized_source_shares_nothing() {
    let (source, data) = memory(11);
    let before = Arc::strong_count(&data);
    assert!(Stream::from_source(&source, 10).is_err());
    assert_eq!(Arc::strong_count(&data), before);
}

#[test]
fn source_on_disk_is_passed_on() {
    let source = FontDataSource::OnDisk(String::from("/fonts/b.ttf"));
    assert_eq!(Stream::from_source(&source, 0), Ok(SourceStream::OnDisk(String::from("/fonts/b.ttf"))));
}

#[test]
fn open_failure_is_an_io_error() {
    let r = Stream::open_path(String::from("/missing"), PathProbe::OpenFailed { os_error: Some(2) }, u64::MAX);
    assert_eq!(r, Err(Error::IOError { name: String::from("/missing"), step: IoStep::Open, os_error: Some(2) }));
}

#[test]
fn metadata_failure_is_an_io_error() {
    let r = Stream::open_path(String::from("/odd"), PathProbe::MetadataFailed { os_error: None }, u64::MAX);
    assert_eq!(r, Err(Error::IOError { name: String::from("/odd"), step: IoStep::Metadata, os_error: None }));
}

#[test]
fn not_a_file_comes_before_too_large() {
    let released = Rc::new(Cell::new(0));
    let r = Stream::open_path(String::from("/dir"), opened(1, false, 4096, &released), 10);
    assert_eq!(r, Err(Error::NotAFile { name: String::from("/dir") }));
}

#[test]
fn file_that_passes_waits_for_its_mapping() {
    let released = Rc::new(Cell::new(0));
    let r = Stream::open_path(String::from("/fonts/c.ttf"), opened(9, true, 1234, &released), 1234);
    let path = r.unwrap();
    assert_eq!(path.name, "/fonts/c.ttf");
    assert_eq!(path.len, 1234);
    assert_eq!(path.file.id, 9);
    assert_eq!(released.get(), 0);
}

#[test]
fn mapped_file_is_read_by_address() {
    let released = Rc::new(Cell::new(0));
    let path = OpenedPath { name: String::from("f"), file: Counted { id: 1, released: Rc::clone(&released) }, len: 77 };
    let stream: Stream = path.backed_by(Some(Counted { id: 2, released: Rc::clone(&released) }));
    assert_eq!(stream.stream, StreamDescriptor { size: 77, direct: true, read: false, close: true });
    assert_eq!(stream.name, "f");
    assert!(matches!(&stream.backing, StreamBacking::Mapped(map) if map.id == 2));
}

#[test]
fn unmapped_file_is_read_through_the_callback() {
    let released = Rc::new(Cell::new(0));
    let path = OpenedPath { name: String::from("f"), file: Counted { id: 1, released: Rc::clone(&released) }, len: 77 };
    let stream: Stream = path.backed_by(None);
    assert_eq!(stream.stream, StreamDescriptor { size: 77, direct: false, read: true, close: true });
    assert!(matches!(&stream.backing, StreamBacking::File(file) if file.id == 1));
    assert_eq!(released.get(), 0);
}

#[test]
fn read_on_a_file_seeks_and_reads() {
    let released = Rc::new(Cell::new(0));
    let path = OpenedPath { name: String::from("f"), file: Counted { id: 1, released }, len: 77 };
    let stream: Stream = path.backed_by(None);
    assert_eq!(stream.read(0, 12), ReadPlan::SeekAndRead { offset: 0, count: 12 });
    assert_eq!(stream.read(70, 100), ReadPlan::SeekAndRead { offset: 70, count: 100 });
    // beyond the end: the seek and the read decide what comes of it
    assert_eq!(stream.read(5000, 1), ReadPlan::SeekAndRead { offset: 5000, count: 1 });
    assert_eq!(stream.read(u64::MAX, u64::MAX), ReadPlan::SeekAndRead { offset: u64::MAX, count: u64::MAX });
}

#[test]
fn read_of_nothing_reads_nothing() {
    let released = Rc::new(Cell::new(0));
    let path = OpenedPath { name: String::from("f"), file: Counted { id: 1, released }, len: 77 };
    let stream: Stream = path.backed_by(None);
    assert_eq!(stream.read(0, 0), ReadPlan::Nothing);
    assert_eq!(stream.read(10, 0), ReadPlan::Nothing);
}

#[test]
fn read_on_memory_reads_nothing() {
    let (source, _) = memory(100);
    let stream = match Stream::from_source(&source, u64::MAX) {
        Ok(SourceStream::Ready(stream)) => stream,
        other => panic!("no stream: {:?}", other),
    };
    assert_eq!(stream.read(0, 10), ReadPlan::Nothing);
    let built_in = match Stream::from_source(&built_in(), u64::MAX) {
        Ok(SourceStream::Ready(stream)) => stream,
        other => panic!("no stream: {:?}", other),
    };
    assert_eq!(built_in.read(1, 2), ReadPlan::Nothing);
    let released = Rc::new(Cell::new(0));
    let path = OpenedPath { name: String::from("f"), file: Counted { id: 1, released: Rc::clone(&released) }, len: 7 };
    let mapped: Stream = path.backed_by(Some(Counted { id: 2, released }));
    assert_eq!(mapped.read(1, 2), ReadPlan::Nothing);
}

#[test]
fn bytes_read_is_the_count_or_zero() {
    assert_eq!(bytes_read(ReadOutcome::Read { len: 12 }), 12);
    assert_eq!(bytes_read(ReadOutcome::Read { len: 0 }), 0);
    assert_eq!(bytes_read(ReadOutcome::Read { len: u64::MAX }), u64::MAX);
    assert_eq!(bytes_read(ReadOutcome::SeekFailed), 0);
    assert_eq!(bytes_read(ReadOutcome::ReadFailed), 0);
}

#[test]
fn source_names() {
    assert_eq!(built_in().name_or_path_str(), "built-in.ttf");
    assert_eq!(memory(1).0.name_or_path_str(), "shared.otf");
    assert_eq!(FontDataSource::OnDisk(String::from("/x/y.ttf")).name_or_path_str(), "/x/y.ttf");
}

#[test]
fn source_lengths() {
    assert_eq!(built_in().data_len(), Some(5));
    assert_eq!(memory(321).0.data_len(), Some(321));
    assert_eq!(memory(0).0.data_len(), Some(0));
    assert_eq!(FontDataSource::OnDisk(String::from("/x/y.ttf")).data_len(), None);
}

#[test]
fn cloned_source_is_equal_and_shares_its_bytes() {
    let (source, data) = memory(8);
    let before = Arc::strong_count(&data);
    let copy = source.clone();
    assert_eq!(copy, source);
    assert_eq!(Arc::strong_count(&data), before + 1);
    match &copy {
        FontDataSource::Memory { data: held, .. } => assert!(Arc::ptr_eq(held, &data)),
        other => panic!("wrong source: {:?}", other),
    }
    assert_eq!(built_in().clone(), built_in());
    let disk = FontDataSource::OnDisk(String::from("/x/y.ttf"));
    assert_eq!(disk.clone(), disk);
}

#[test]
fn cloned_handle_is_equal() {
    let handle = FontDataHandle { source: memory(3).0, index: 4, variation: 5, origin: FontOrigin::Gdi };
    assert_eq!(handle.clone(), handle);
}
