//! The engine instance: how it is set up, and how faces are opened
//! against it.

use vstd::prelude::*;
use crate::engine::{ft_result, ft_result_spec, succeeded, EngineCall, EngineReply, Error, LcdFilter};
use crate::face::{Face, FaceRecord, Sizing};
use crate::load_flags::FreeTypeConfig;
use crate::source::{FontDataHandle, FontDataSource};
use crate::stream::{FreeTypeStream, OpenedPath, PathProbe, SourceStream};

verus! {

/// The face index that opens no face, only the container, to look at what
/// it holds.
pub const PROBE_FACE_INDEX: i64 = -1;

/// An initialised engine instance.
///
/// `max_stream_len` is the largest length that the stream length field of
/// the engine can hold on this platform. `lcd_filter` is the subpixel
/// filter that was enabled last, if any was.
#[derive(Debug, Clone, Copy, PartialEq, Eq, Structural)]
pub struct Library {
    pub max_stream_len: u64,
    pub lcd_filter: Option<LcdFilter>,
}

/// How far the opening of a face has got.
#[derive(Debug, PartialEq, Eq)]
pub enum FaceOpening<F, M> {
    /// The stream of the source is ready, and `call` opens the face through
    /// it.
    Ready { stream: FreeTypeStream<F, M>, call: EngineCall },
    /// The source is the file at `path`, which has yet to be opened and
    /// checked. Until it has been, there is no call to make.
    OnDisk { path: String },
}

/// The calls that configure a fresh engine instance, in order: the version
/// of the outline interpreter, where the configuration overrides it, and
/// the default subpixel filter.
pub open spec fn startup_calls(config: FreeTypeConfig) -> Seq<EngineCall> {
    match config.interpreter_version {
        Some(version) => seq![
            EngineCall::SetInterpreterVersion { version },
            EngineCall::SetLcdFilter { filter: LcdFilter::Default },
        ],
        None => seq![EngineCall::SetLcdFilter { filter: LcdFilter::Default }],
    }
}

/// The face index under which the engine opens what `handle` names: the
/// index of the face, with the number of the named instance in the bits
/// from 16 upward where the handle names one.
pub open spec fn face_index_of(handle: FontDataHandle) -> i64 {
    if handle.variation != 0 {
        (handle.index | (handle.variation << 16)) as i64
    } else {
        handle.index as i64
    }
}

/// How many faces a container holds, from what the probe of it gave: the
/// count that the engine reports, or the failure to open the container.
pub open spec fn num_faces_of(opened: Result<i64, EngineReply>) -> Result<u32, Error> {
    match opened {
        Ok(num_faces) => if 0 <= num_faces <= u32::MAX {
            Ok(num_faces as u32)
        } else {
            Err(Error::InvalidFaceCount { num_faces })
        },
        Err(reply) => Err(
            Error::EngineCallFailure {
                call: EngineCall::OpenFace { face_index: PROBE_FACE_INDEX },
                code: reply.status,
                reason: reply.reason,
            },
        ),
    }
}

/// What a reply to a configuration call at startup leaves to report. Such
/// calls are advisory: none of them can fail the startup. A failure to set
/// the interpreter version is worth a line in the log. A failure to enable
/// the subpixel filter is expected of most builds of the engine and is
/// passed over in silence, as is the reply to any other call.
pub open spec fn advisory_failure(call: EngineCall, reply: EngineReply) -> Option<Error> {
    if call is SetInterpreterVersion && !succeeded(reply.status) {
        Some(Error::EngineCallFailure { call, code: reply.status, reason: reply.reason })
    } else {
        None
    }
}

impl Library {
    /// The engine instance after the reply to a configuration call at
    /// startup: a subpixel filter that was enabled is remembered.
    pub open spec fn configured(self, call: EngineCall, reply: EngineReply) -> Library {
        match call {
            EngineCall::SetLcdFilter { filter } if succeeded(reply.status) => Library {
                max_stream_len: self.max_stream_len,
                lcd_filter: Some(filter),
            },
            _ => self,
        }
    }

    /// Sets up the engine instance from the reply to `InitFreeType`.
    ///
    /// If the engine could not be initialised there is no instance, and the
    /// error says why. Otherwise the instance comes with the configuration
    /// calls to make next, in order. Their replies go to
    /// [`Library::startup_reply`], and none of them can undo the startup.
    pub fn new(reply: EngineReply, config: &FreeTypeConfig, max_stream_len: u64) -> (r: Result<
        (Library, Vec<EngineCall>),
        Error,
    >)
        ensures
            succeeded(reply.status) ==> (r matches Ok((lib, calls)) && lib == (Library {
                max_stream_len,
                lcd_filter: None,
            }) && calls@ == startup_calls(*config)),
            !succeeded(reply.status) ==> r == Err::<(Library, Vec<EngineCall>), Error>(
                Error::EngineInitError { code: reply.status, reason: reply.reason },
            ),
    {
        if !succeeded(reply.status) {
            return Err(Error::EngineInitError { code: reply.status, reason: reply.reason });
        }
        let mut calls: Vec<EngineCall> = Vec::new();
        match config.interpreter_version {
            Some(version) => {
                calls.push(EngineCall::SetInterpreterVersion { version });
            },
            None => {},
        }
        calls.push(EngineCall::SetLcdFilter { filter: LcdFilter::Default });
        assert(calls@ =~= startup_calls(*config));
        Ok((Library { max_stream_len, lcd_filter: None }, calls))
    }

    /// Takes the reply to one of the configuration calls of the startup.
    /// Returns the failure to write to the log, if the reply is one.
    pub fn startup_reply(&mut self, call: EngineCall, reply: EngineReply) -> (logged: Option<Error>)
        ensures
            logged == advisory_failure(call, reply),
            *final(self) == old(self).configured(call, reply),
    {
        match call {
            EngineCall::SetInterpreterVersion { version } => {
                if succeeded(reply.status) {
                    None
                } else {
                    Some(Error::EngineCallFailure { call, code: reply.status, reason: reply.reason })
                }
            },
            EngineCall::SetLcdFilter { filter } => {
                if succeeded(reply.status) {
                    self.lcd_filter = Some(filter);
                }
                None
            },
            _ => None,
        }
    }

    /// Reads the reply to the request to enable `filter`. The filter is
    /// remembered if the engine took it, and the failure is returned if it
    /// did not.
    pub fn set_lcd_filter(&mut self, filter: LcdFilter, reply: EngineReply) -> (r: Result<(), Error>)
        ensures
            r == ft_result_spec(EngineCall::SetLcdFilter { filter }, reply, ()),
            r is Ok ==> *final(self) == (Library {
                max_stream_len: old(self).max_stream_len,
                lcd_filter: Some(filter),
            }),
            r is Err ==> *final(self) == *old(self),
    {
        let r = ft_result(EngineCall::SetLcdFilter { filter }, reply, ());
        if r.is_ok() {
            self.lcd_filter = Some(filter);
        }
        r
    }

    /// The number of faces in a container. `opened` is what came of opening
    /// the container at [`PROBE_FACE_INDEX`]: the number of faces that the
    /// engine reports, or the reply with which the engine refused.
    ///
    /// A single font has one face; a collection has as many as it holds
    /// fonts.
    pub fn query_num_faces(&self, opened: Result<i64, EngineReply>) -> (r: Result<u32, Error>)
        ensures
            r == num_faces_of(opened),
    {
        match opened {
            Ok(num_faces) => {
                if 0 <= num_faces && num_faces <= 0xffff_ffff {
                    Ok(num_faces as u32)
                } else {
                    Err(Error::InvalidFaceCount { num_faces })
                }
            },
            Err(reply) => Err(
                Error::EngineCallFailure {
                    call: EngineCall::OpenFace { face_index: PROBE_FACE_INDEX },
                    code: reply.status,
                    reason: reply.reason,
                },
            ),
        }
    }

    /// The face index under which the engine opens what `handle` names.
    pub fn face_index(handle: &FontDataHandle) -> (index: i64)
        ensures
            index == face_index_of(*handle),
    {
        if handle.variation != 0 {
            (handle.index | (handle.variation << 16)) as i64
        } else {
            handle.index as i64
        }
    }

    /// How far the opening of face `face_index` of `source` gets without
    /// touching the disk.
    pub open spec fn new_face_spec<F, M>(self, source: FontDataSource, face_index: i64) -> Result<
        FaceOpening<F, M>,
        Error,
    > {
        match FreeTypeStream::<F, M>::from_source_spec(source, self.max_stream_len) {
            Ok(SourceStream::Ready(stream)) => Ok(
                FaceOpening::Ready { stream, call: EngineCall::OpenFace { face_index } },
            ),
            Ok(SourceStream::OnDisk(path)) => Ok(FaceOpening::OnDisk { path }),
            Err(err) => Err(err),
        }
    }

    /// Prepares the opening of face `face_index` of `source`.
    ///
    /// A source in memory gets its stream, and with it the call that opens
    /// the face through that stream. A source that is too long for the
    /// engine is refused, and no call is named for it. For a source on disk
    /// no call is named either: the file has to be looked at first, and
    /// [`Library::new_face_on_disk`] goes on from there.
    ///
    /// The stream goes to the engine with the call. The engine closes it
    /// when the face is done with, and also when the face fails to open.
    pub fn new_face<F, M>(&self, source: &FontDataSource, face_index: i64) -> (r: Result<
        FaceOpening<F, M>,
        Error,
    >)
        ensures
            r == self.new_face_spec::<F, M>(*source, face_index),
            r matches Ok(FaceOpening::Ready { stream, .. }) ==> stream.wf(),
    {
        match FreeTypeStream::<F, M>::from_source(source, self.max_stream_len) {
            Ok(SourceStream::Ready(stream)) => Ok(
                FaceOpening::Ready { stream, call: EngineCall::OpenFace { face_index } },
            ),
            Ok(SourceStream::OnDisk(path)) => Ok(FaceOpening::OnDisk { path }),
            Err(err) => Err(err),
        }
    }

    /// What comes of the file at `path`, found in the state `probe`, when
    /// face `face_index` is to be opened from it.
    pub open spec fn new_face_on_disk_spec<F, M>(
        self,
        path: String,
        probe: PathProbe<F>,
        face_index: i64,
    ) -> Result<(OpenedPath<F>, EngineCall), Error> {
        match FreeTypeStream::<F, M>::open_path_spec(path, probe, self.max_stream_len) {
            Ok(opened) => Ok((opened, EngineCall::OpenFace { face_index })),
            Err(err) => Err(err),
        }
    }

    /// Goes on with the opening of face `face_index` of the file at
    /// `path`, which was found in the state `probe`.
    ///
    /// The file is checked as [`FreeTypeStream::open_path`] checks it,
    /// against the stream length of this engine. A file that fails a check
    /// is refused, and no call is named for it. A file that passes comes
    /// back with the call that opens the face, to be made once
    /// [`OpenedPath::backed_by`] has built the stream.
    pub fn new_face_on_disk<F, M>(&self, path: String, probe: PathProbe<F>, face_index: i64) -> (r: Result<
        (OpenedPath<F>, EngineCall),
        Error,
    >)
        ensures
            r == self.new_face_on_disk_spec::<F, M>(path, probe, face_index),
    {
        match FreeTypeStream::<F, M>::open_path(path, probe, self.max_stream_len) {
            Ok(opened) => Ok((opened, EngineCall::OpenFace { face_index })),
            Err(err) => Err(err),
        }
    }

    /// Wraps the face that `handle` names. `opened` is what came of opening
    /// it at [`Library::face_index`]: what the engine reports of the face,
    /// or the reply with which the engine refused.
    ///
    /// The face keeps its own copy of the handle, and starts out without a
    /// selected size.
    pub fn face_from_locator(&self, handle: &FontDataHandle, opened: Result<FaceRecord, EngineReply>) -> (r:
        Result<Face, Error>)
        ensures
            match opened {
                Ok(face) => r == Ok::<Face, Error>(
                    Face { face, source: *handle, size: None, sizing: Sizing::Idle },
                ),
                Err(reply) => r == Err::<Face, Error>(
                    Error::EngineCallFailure {
                        call: EngineCall::OpenFace { face_index: face_index_of(*handle) },
                        code: reply.status,
                        reason: reply.reason,
                    },
                ),
            },
    {
        match opened {
            Ok(face) => Ok(Face::new(face, handle.clone())),
            Err(reply) => Err(
                Error::EngineCallFailure {
                    call: EngineCall::OpenFace { face_index: Self::face_index(handle) },
                    code: reply.status,
                    reason: reply.reason,
                },
            ),
        }
    }
}

/// Where the face index and the instance number both fit 16 bits, the
/// instance number sits in the face index above the index of the face, and
/// a face opened under that index finds it there again.
pub proof fn lemma_face_index_holds_variation(handle: FontDataHandle, face: Face)
    requires
        handle.index < 0x1_0000,
        handle.variation < 0x8000,
        face.face.face_index == face_index_of(handle),
    ensures
        face_index_of(handle) == handle.variation * 0x1_0000 + handle.index,
        face.variation_spec() == handle.variation,
{
    let index: u32 = handle.index;
    let variation: u32 = handle.variation;
    assert(index < 0x1_0000u32 && variation < 0x8000u32 ==> (index | (variation << 16)) == variation
        * 0x1_0000u32 + index) by (bit_vector);
    let combined = variation as int * 0x1_0000 + index as int;
    assert(combined / 0x1_0000 == variation as int);
}

/// The engine is asked to open a face only through a stream that exists:
/// a source that is refused, in memory or on disk, comes back as an error
/// and with no call, and a source on disk gets its call only once its file
/// has passed every check.
pub proof fn lemma_open_call_needs_a_stream<F, M>(
    lib: Library,
    source: FontDataSource,
    path: String,
    probe: PathProbe<F>,
    face_index: i64,
)
    ensures
        lib.new_face_spec::<F, M>(source, face_index) matches Ok(FaceOpening::Ready { stream, call }) <==> (
        source.bytes() matches Some(bytes) && bytes.len() <= lib.max_stream_len),
        lib.new_face_spec::<F, M>(source, face_index) matches Ok(FaceOpening::Ready { stream, call })
            ==> call == (EngineCall::OpenFace { face_index }) && stream.wf() && stream.stream.size
            == source.bytes()->0.len(),
        lib.new_face_spec::<F, M>(source, face_index) is Err <==> (source.bytes() matches Some(bytes)
            && bytes.len() > lib.max_stream_len),
        lib.new_face_on_disk_spec::<F, M>(path, probe, face_index) is Ok <==> (probe matches PathProbe::Opened {
            is_file,
            len,
            ..
        } && is_file && len <= lib.max_stream_len),
        lib.new_face_on_disk_spec::<F, M>(path, probe, face_index) matches Ok((opened, call)) ==> call == (
        EngineCall::OpenFace { face_index }) && opened.name == path,
{
}

} // verus!
