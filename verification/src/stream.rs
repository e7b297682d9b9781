//! The adapter between a data source and the stream that the engine reads
//! a face through.
//!
//! The adapter owns whatever the engine will read from. Bytes in memory and
//! mapped files are handed to the engine by address, and the engine reads
//! them without calling back. A plain file is read through a callback that
//! seeks and reads. Either way the adapter goes to the engine when a face is
//! opened and comes back exactly once, through [`FreeTypeStream::close`],
//! which consumes it.
//!
//! Files and mappings are opened outside this crate, so the adapter is
//! generic over the two: `F` is an open file and `M` a mapping of one.

use std::sync::Arc;
use vstd::prelude::*;
use crate::engine::{Error, IoStep};
use crate::source::{share, FontDataSource};

verus! {

/// What the engine reads from.
#[derive(Debug, PartialEq, Eq)]
pub enum StreamBacking<F, M> {
    /// An open file, read by seeking and reading.
    File(F),
    /// A file mapped into memory.
    Mapped(M),
    /// Bytes that live as long as the program.
    Static(&'static [u8]),
    /// A buffer that several owners share.
    Memory(Arc<Box<[u8]>>),
}

/// What the engine is told about a stream.
///
/// `direct` says that the stream has a base address and the engine resolves
/// bytes from it; `read` says that a read callback is installed. A stream
/// has one or the other. `close` says that a close callback is installed,
/// which is always the case.
#[derive(Debug, Clone, Copy, PartialEq, Eq, Structural)]
pub struct StreamDescriptor {
    pub size: u64,
    pub direct: bool,
    pub read: bool,
    pub close: bool,
}

/// A stream ready to be handed to the engine.
#[derive(Debug, PartialEq, Eq)]
pub struct FreeTypeStream<F, M> {
    pub stream: StreamDescriptor,
    pub backing: StreamBacking<F, M>,
    pub name: String,
}

/// What was found when a path was looked at. The `os_error` of a failure is
/// the error number of the platform, where it gave one.
#[derive(Debug, PartialEq, Eq)]
pub enum PathProbe<F> {
    /// The file could not be opened.
    OpenFailed { os_error: Option<i32> },
    /// The file was opened but its metadata could not be read.
    MetadataFailed { os_error: Option<i32> },
    /// The file is open; `is_file` and `len` are from its metadata.
    Opened { file: F, is_file: bool, len: u64 },
}

/// A file that passed every check and now waits for the attempt to map it.
#[derive(Debug, PartialEq, Eq)]
pub struct OpenedPath<F> {
    pub name: String,
    pub file: F,
    pub len: u64,
}

/// How far [`FreeTypeStream::from_source`] gets without touching the disk.
#[derive(Debug, PartialEq, Eq)]
pub enum SourceStream<F, M> {
    /// The source is in memory and this is its stream.
    Ready(FreeTypeStream<F, M>),
    /// The source is a file at this path, which has yet to be opened: see
    /// [`FreeTypeStream::open_path`].
    OnDisk(String),
}

/// What the read callback has to do.
#[derive(Debug, Clone, Copy, PartialEq, Eq, Structural)]
pub enum ReadPlan {
    /// Nothing is read and the callback reports 0 bytes.
    Nothing,
    /// Seek to `offset` from the start and read up to `count` bytes.
    SeekAndRead { offset: u64, count: u64 },
}

/// How the seek and read of a [`ReadPlan`] went.
#[derive(Debug, Clone, Copy, PartialEq, Eq, Structural)]
pub enum ReadOutcome {
    SeekFailed,
    ReadFailed,
    Read { len: u64 },
}

/// The descriptor of a stream over `backing` with `size` bytes: a plain
/// file gets the read callback, everything else is read by address.
pub open spec fn descriptor_of<F, M>(backing: StreamBacking<F, M>, size: u64) -> StreamDescriptor {
    StreamDescriptor { size, direct: !(backing is File), read: backing is File, close: true }
}

impl<F, M> FreeTypeStream<F, M> {
    /// The adapter invariant: the descriptor is the one that goes with the
    /// backing, so a read callback is installed if and only if the backing
    /// is a plain file, and a base address is given if and only if it is
    /// not.
    pub open spec fn wf(self) -> bool {
        self.stream == descriptor_of(self.backing, self.stream.size)
    }

    /// The stream of an in-memory source, and the refusal of one that is too
    /// long; a source on disk is passed on.
    pub open spec fn from_source_spec(source: FontDataSource, max_len: u64) -> Result<SourceStream<F, M>, Error> {
        match source {
            FontDataSource::OnDisk(path) => Ok(SourceStream::OnDisk(path)),
            FontDataSource::BuiltIn { name, data } => if data@.len() > max_len {
                Err(Error::SourceTooLarge { name, len: data@.len() as u64 })
            } else {
                Ok(
                    SourceStream::Ready(
                        FreeTypeStream {
                            stream: StreamDescriptor {
                                size: data@.len() as u64,
                                direct: true,
                                read: false,
                                close: true,
                            },
                            backing: StreamBacking::Static(data),
                            name,
                        },
                    ),
                )
            },
            FontDataSource::Memory { name, data } => if data@.len() > max_len {
                Err(Error::SourceTooLarge { name, len: data@.len() as u64 })
            } else {
                Ok(
                    SourceStream::Ready(
                        FreeTypeStream {
                            stream: StreamDescriptor {
                                size: data@.len() as u64,
                                direct: true,
                                read: false,
                                close: true,
                            },
                            backing: StreamBacking::Memory(data),
                            name,
                        },
                    ),
                )
            },
        }
    }

    /// Builds the stream of a data source. `max_len` is the largest length
    /// that the engine's stream length field can hold.
    ///
    /// A source in memory becomes a stream that the engine reads by address
    /// and that keeps its own hold on the bytes. It is refused when it is
    /// longer than `max_len`, and only then. A source on disk is not opened
    /// here: its path comes back for [`FreeTypeStream::open_path`].
    pub fn from_source(source: &FontDataSource, max_len: u64) -> (r: Result<SourceStream<F, M>, Error>)
        ensures
            r == Self::from_source_spec(*source, max_len),
            r matches Ok(SourceStream::Ready(stream)) ==> stream.wf(),
    {
        match source {
            FontDataSource::OnDisk(path) => Ok(SourceStream::OnDisk(path.clone())),
            FontDataSource::BuiltIn { name, data } => {
                let len: u64 = data.len() as u64;
                if len > max_len {
                    Err(Error::SourceTooLarge { name: name.clone(), len })
                } else {
                    Ok(
                        SourceStream::Ready(
                            FreeTypeStream {
                                stream: StreamDescriptor { size: len, direct: true, read: false, close: true },
                                backing: StreamBacking::Static(*data),
                                name: name.clone(),
                            },
                        ),
                    )
                }
            },
            FontDataSource::Memory { name, data } => {
                let len: u64 = data.len() as u64;
                if len > max_len {
                    Err(Error::SourceTooLarge { name: name.clone(), len })
                } else {
                    Ok(
                        SourceStream::Ready(
                            FreeTypeStream {
                                stream: StreamDescriptor { size: len, direct: true, read: false, close: true },
                                backing: StreamBacking::Memory(share(data)),
                                name: name.clone(),
                            },
                        ),
                    )
                }
            },
        }
    }

    /// Whether a file that was found in the state `probe` may back a stream,
    /// and the reason if it may not.
    pub open spec fn open_path_spec(name: String, probe: PathProbe<F>, max_len: u64) -> Result<OpenedPath<F>, Error> {
        match probe {
            PathProbe::OpenFailed { os_error } => Err(Error::IOError { name, step: IoStep::Open, os_error }),
            PathProbe::MetadataFailed { os_error } => Err(
                Error::IOError { name, step: IoStep::Metadata, os_error },
            ),
            PathProbe::Opened { file, is_file, len } => if !is_file {
                Err(Error::NotAFile { name })
            } else if len > max_len {
                Err(Error::SourceTooLarge { name, len })
            } else {
                Ok(OpenedPath { name, file, len })
            },
        }
    }

    /// Checks the file at path `name`, as it was found in `probe`.
    ///
    /// The checks come in this order: the file was opened, its metadata was
    /// read, it is a regular file, and it is no longer than `max_len`. The
    /// first that fails decides the error. A file that passes comes back
    /// for the attempt to map it: see [`OpenedPath::backed_by`].
    pub fn open_path(name: String, probe: PathProbe<F>, max_len: u64) -> (r: Result<OpenedPath<F>, Error>)
        ensures
            r == Self::open_path_spec(name, probe, max_len),
    {
        match probe {
            PathProbe::OpenFailed { os_error } => Err(Error::IOError { name, step: IoStep::Open, os_error }),
            PathProbe::MetadataFailed { os_error } => Err(
                Error::IOError { name, step: IoStep::Metadata, os_error },
            ),
            PathProbe::Opened { file, is_file, len } => {
                if !is_file {
                    Err(Error::NotAFile { name })
                } else if len > max_len {
                    Err(Error::SourceTooLarge { name, len })
                } else {
                    Ok(OpenedPath { name, file, len })
                }
            },
        }
    }

    /// What the read callback does when the engine asks for `count` bytes
    /// at `offset`.
    pub open spec fn read_spec(self, offset: u64, count: u64) -> ReadPlan {
        if count == 0 || !(self.backing is File) {
            ReadPlan::Nothing
        } else {
            ReadPlan::SeekAndRead { offset, count }
        }
    }

    /// Decides what the read callback does when the engine asks for `count`
    /// bytes at `offset`.
    ///
    /// A request for no bytes is answered with none. So is any request on a
    /// stream that is not backed by a plain file, which the engine should
    /// never make. Everything else is a seek to `offset` and a read of up to
    /// `count` bytes, whose outcome goes to [`bytes_read`].
    pub fn read(&self, offset: u64, count: u64) -> (plan: ReadPlan)
        ensures
            plan == self.read_spec(offset, count),
    {
        if count == 0 {
            return ReadPlan::Nothing;
        }
        match &self.backing {
            StreamBacking::File(_) => ReadPlan::SeekAndRead { offset, count },
            StreamBacking::Mapped(_) => ReadPlan::Nothing,
            StreamBacking::Static(_) => ReadPlan::Nothing,
            StreamBacking::Memory(_) => ReadPlan::Nothing,
        }
    }

    /// Takes the stream apart when the engine closes it. The stream is gone
    /// afterwards, and what backed it comes back to be released.
    pub fn close(self) -> (backing: StreamBacking<F, M>)
        ensures
            backing == self.backing,
    {
        self.backing
    }
}

impl<F> OpenedPath<F> {
    /// The stream over the file, given the outcome of mapping it.
    pub open spec fn backed_by_spec<M>(self, mapping: Option<M>) -> FreeTypeStream<F, M> {
        match mapping {
            Some(map) => FreeTypeStream {
                stream: StreamDescriptor { size: self.len, direct: true, read: false, close: true },
                backing: StreamBacking::Mapped(map),
                name: self.name,
            },
            None => FreeTypeStream {
                stream: StreamDescriptor { size: self.len, direct: false, read: true, close: true },
                backing: StreamBacking::File(self.file),
                name: self.name,
            },
        }
    }

    /// Builds the stream over the file. `mapping` is the mapping of the
    /// file, or `None` if it could not be mapped.
    ///
    /// A mapped file is read by address, and the file itself is let go. A
    /// file that could not be mapped is kept and read through the read
    /// callback.
    pub fn backed_by<M>(self, mapping: Option<M>) -> (stream: FreeTypeStream<F, M>)
        ensures
            stream == self.backed_by_spec(mapping),
            stream.wf(),
    {
        match mapping {
            Some(map) => FreeTypeStream {
                stream: StreamDescriptor { size: self.len, direct: true, read: false, close: true },
                backing: StreamBacking::Mapped(map),
                name: self.name,
            },
            None => FreeTypeStream {
                stream: StreamDescriptor { size: self.len, direct: false, read: true, close: true },
                backing: StreamBacking::File(self.file),
                name: self.name,
            },
        }
    }
}

/// The number of bytes that the read callback reports to the engine: what
/// was read, and 0 after any failure.
pub open spec fn bytes_read_spec(outcome: ReadOutcome) -> u64 {
    match outcome {
        ReadOutcome::Read { len } => len,
        _ => 0,
    }
}

/// The number of bytes that the read callback reports to the engine after
/// `outcome`: the number that was read, and 0 if the seek or the read
/// failed. The engine sees a failure as a short read and nothing else.
pub fn bytes_read(outcome: ReadOutcome) -> (count: u64)
    ensures
        count == bytes_read_spec(outcome),
{
    match outcome {
        ReadOutcome::Read { len } => len,
        ReadOutcome::SeekFailed => 0,
        ReadOutcome::ReadFailed => 0,
    }
}

/// A source in memory that is no longer than the limit always gets a
/// stream. The stream is well formed, goes by the name of the source, has
/// the length of its bytes, and is backed by exactly those bytes. That
/// backing is the one thing that [`FreeTypeStream::close`] gives back.
pub proof fn lemma_memory_source_gets_its_stream<F, M>(source: FontDataSource, max_len: u64)
    requires
        source.bytes() matches Some(bytes) && bytes.len() <= max_len,
    ensures
        FreeTypeStream::<F, M>::from_source_spec(source, max_len) matches Ok(SourceStream::Ready(stream))
            && stream.wf() && stream.name@ == source.name() && stream.stream.size == source.bytes()->0.len()
            && match stream.backing {
            StreamBacking::Static(data) => source.bytes() == Some(data@),
            StreamBacking::Memory(data) => source.bytes() == Some(data@),
            _ => false,
        },
{
}

/// A source is refused as too large exactly when its length exceeds the
/// limit, whether it is in memory or a regular file on disk.
pub proof fn lemma_oversized_source_is_refused<F, M>(
    source: FontDataSource,
    name: String,
    probe: PathProbe<F>,
    max_len: u64,
)
    ensures
        source.bytes() matches Some(bytes) ==> (FreeTypeStream::<F, M>::from_source_spec(source, max_len)
            matches Err(Error::SourceTooLarge { .. }) <==> bytes.len() > max_len),
        source.bytes() matches Some(bytes) ==> (FreeTypeStream::<F, M>::from_source_spec(source, max_len)
            is Ok <==> bytes.len() <= max_len),
        FreeTypeStream::<F, M>::open_path_spec(name, probe, max_len) matches Err(Error::SourceTooLarge { .. })
            <==> (probe matches PathProbe::Opened { is_file, len, .. } && is_file && len > max_len),
{
}

/// A file that could not be mapped is read through the read callback, and
/// through nothing else: the callback is installed and there is no base
/// address. Asked for some bytes, the callback seeks to the very offset
/// and reads up to the very count that the engine asked for. What it
/// reports is the number of bytes that the read gave, and 0 if the seek
/// or the read failed.
pub proof fn lemma_unmapped_file_is_read_through_callback<F, M>(
    path: OpenedPath<F>,
    offset: u64,
    count: u64,
    outcome: ReadOutcome,
)
    ensures
        ({
            let stream = path.backed_by_spec::<M>(None);
            &&& stream.wf()
            &&& stream.stream.read && !stream.stream.direct && stream.stream.close
            &&& stream.stream.size == path.len
            &&& count > 0 ==> stream.read_spec(offset, count) == ReadPlan::SeekAndRead { offset, count }
            &&& count == 0 ==> stream.read_spec(offset, count) == ReadPlan::Nothing
        }),
        outcome matches ReadOutcome::Read { len } ==> bytes_read_spec(outcome) == len,
        !(outcome is Read) ==> bytes_read_spec(outcome) == 0,
{
}

} // verus!
