//! The vocabulary shared with whoever performs the engine calls: the calls
//! themselves, what comes back from them, and the errors they turn into.

use vstd::prelude::*;

verus! {

/// The status code with which every engine entry point reports success.
pub const FT_ERR_OK: i32 = 0;

/// How a glyph is rendered, in the engine's numbering.
#[derive(Debug, Clone, Copy, PartialEq, Eq, Structural)]
pub enum RenderMode {
    Normal,
    Light,
    Mono,
    Lcd,
    LcdV,
}

/// Subpixel filters the engine can apply to LCD-rendered glyphs.
#[derive(Debug, Clone, Copy, PartialEq, Eq, Structural)]
pub enum LcdFilter {
    Disabled,
    Default,
    Light,
    Legacy,
}

/// One call into the engine, with its arguments.
///
/// The library never performs a call itself. It hands out values of this
/// type, and is then told what the engine answered.
#[derive(Debug, Clone, Copy, PartialEq, Eq, Structural)]
pub enum EngineCall {
    /// Set the outline interpreter version of the TrueType driver.
    SetInterpreterVersion { version: u32 },
    /// Enable a subpixel filter for the whole engine instance.
    SetLcdFilter { filter: LcdFilter },
    /// Open a face of a data source through a stream.
    OpenFace { face_index: i64 },
    /// Request a scalable size, in 26.6 fixed-point points.
    SetCharSize { char_width: i64, char_height: i64, horz_resolution: u32, vert_resolution: u32 },
    /// Select one of the face's fixed bitmap strikes.
    SelectSize { strike_index: usize },
    /// Look up the glyph index of a character code.
    GetCharIndex { char_code: u64 },
    /// Load a glyph into the face's glyph slot.
    LoadGlyph { glyph_index: u32, load_flags: i32 },
    /// Render the glyph in the face's glyph slot.
    RenderGlyph { render_mode: RenderMode },
    /// Make a named instance of a variable font the active one.
    SetNamedInstance { instance_index: u32 },
}

/// What was observed once an [`EngineCall`] returned.
///
/// `status` and `reason` belong to every call. The other fields are read
/// only after the call that produces them: `glyph_index` is the result of
/// `GetCharIndex`, `y_scale` is the vertical scale of the active size after
/// `SetCharSize`, and `advance` is the horizontal advance of the glyph slot
/// after `LoadGlyph`.
#[derive(Debug, Clone, PartialEq, Eq)]
pub struct EngineReply {
    pub status: i32,
    pub reason: Option<String>,
    pub glyph_index: u32,
    pub y_scale: i64,
    pub advance: i64,
}

/// Which step of looking at a file on disk failed.
#[derive(Debug, Clone, Copy, PartialEq, Eq, Structural)]
pub enum IoStep {
    Open,
    Metadata,
}

/// Everything that can go wrong in this crate.
#[derive(Debug, PartialEq, Eq)]
pub enum Error {
    /// An engine entry point returned a status other than success.
    EngineCallFailure { call: EngineCall, code: i32, reason: Option<String> },
    /// The engine instance could not be created.
    EngineInitError { code: i32, reason: Option<String> },
    /// A data source is longer than the engine's stream length field can say.
    SourceTooLarge { name: String, len: u64 },
    /// A path names something other than a regular file.
    NotAFile { name: String },
    /// A file could not be opened, or its metadata could not be read.
    IOError { name: String, step: IoStep, os_error: Option<i32> },
    /// Scalable sizing succeeded but the face reports a design height of zero.
    DegenerateFace,
    /// Scalable sizing failed and the face has no bitmap strike to fall back
    /// to. `cause` is the failure of the scalable attempt.
    NoFixedSizes { cause: Box<Error> },
    /// The face has no variable-font descriptor.
    NotVariable,
    /// A container reports a number of faces that is not a 32-bit count.
    InvalidFaceCount { num_faces: i64 },
    /// A reply arrived for a size selection, and none is under way.
    NoSelection,
}

/// Whether an engine status code reports success.
pub open spec fn spec_succeeded(error: i32) -> bool {
    error == FT_ERR_OK
}

/// Whether an engine status code reports success.
#[verifier::when_used_as_spec(spec_succeeded)]
pub fn succeeded(error: i32) -> (ok: bool)
    ensures
        ok == (error == FT_ERR_OK),
{
    error == FT_ERR_OK
}

impl EngineReply {
    /// The reply of a call that succeeded and produced nothing else.
    pub fn ok() -> (reply: EngineReply)
        ensures
            reply == (EngineReply { status: FT_ERR_OK, reason: None, glyph_index: 0, y_scale: 0, advance: 0 }),
    {
        EngineReply { status: FT_ERR_OK, reason: None, glyph_index: 0, y_scale: 0, advance: 0 }
    }

    /// The reply of a call that returned `status` and produced nothing else.
    pub fn with_status(status: i32) -> (reply: EngineReply)
        ensures
            reply == (EngineReply { status, reason: None, glyph_index: 0, y_scale: 0, advance: 0 }),
    {
        EngineReply { status, reason: None, glyph_index: 0, y_scale: 0, advance: 0 }
    }
}

/// What [`ft_result`] returns, as a function of its arguments.
pub open spec fn ft_result_spec<T>(call: EngineCall, reply: EngineReply, t: T) -> Result<T, Error> {
    if succeeded(reply.status) {
        Ok(t)
    } else {
        Err(Error::EngineCallFailure { call, code: reply.status, reason: reply.reason })
    }
}

/// Turns the reply to `call` into a result: `t` when the engine reported
/// success, and otherwise a failure that records the call, the status code
/// and the engine's reason, if it gave one.
pub fn ft_result<T>(call: EngineCall, reply: EngineReply, t: T) -> (r: Result<T, Error>)
    ensures
        r == ft_result_spec(call, reply, t),
{
    if succeeded(reply.status) {
        Ok(t)
    } else {
        Err(Error::EngineCallFailure { call, code: reply.status, reason: reply.reason })
    }
}

} // verus!
