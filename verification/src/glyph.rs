//! Loading a glyph into the glyph slot of a face and rendering it there.

use vstd::prelude::*;
use crate::engine::{ft_result, ft_result_spec, EngineCall, EngineReply, Error, RenderMode};
use crate::face::Face;

verus! {

/// A glyph on its way into the glyph slot: first it is loaded, then it is
/// rendered. `loaded` says that the load has succeeded and the render is
/// outstanding.
#[derive(Debug, Clone, Copy, PartialEq, Eq, Structural)]
pub struct GlyphRequest {
    pub glyph_index: u32,
    pub load_flags: i32,
    pub render_mode: RenderMode,
    pub loaded: bool,
}

/// What a [`GlyphRequest`] wants next: an engine call, or nothing more.
/// After `Done(Ok(()))` the glyph slot of the face holds the rendered glyph,
/// until the next load into the same face.
#[derive(Debug, PartialEq, Eq)]
pub enum GlyphStep {
    Call(EngineCall),
    Done(Result<(), Error>),
}

impl GlyphRequest {
    /// The call that loads the glyph.
    pub open spec fn load_call(self) -> EngineCall {
        EngineCall::LoadGlyph { glyph_index: self.glyph_index, load_flags: self.load_flags }
    }

    /// The call that renders the glyph.
    pub open spec fn render_call(self) -> EngineCall {
        EngineCall::RenderGlyph { render_mode: self.render_mode }
    }

    /// A fresh request and its first call, the load.
    pub open spec fn started(glyph_index: u32, load_flags: i32, render_mode: RenderMode) -> (
        GlyphRequest,
        EngineCall,
    ) {
        let request = GlyphRequest { glyph_index, load_flags, render_mode, loaded: false };
        (request, request.load_call())
    }

    /// The request after `reply` to its outstanding call, and what it wants
    /// next: a load that succeeded is followed by the render, and the
    /// failure of either ends the request.
    pub open spec fn next(self, reply: EngineReply) -> (GlyphRequest, GlyphStep) {
        if self.loaded {
            (self, GlyphStep::Done(ft_result_spec(self.render_call(), reply, ())))
        } else {
            match ft_result_spec(self.load_call(), reply, ()) {
                Ok(_) => (
                    GlyphRequest {
                        glyph_index: self.glyph_index,
                        load_flags: self.load_flags,
                        render_mode: self.render_mode,
                        loaded: true,
                    },
                    GlyphStep::Call(self.render_call()),
                ),
                Err(err) => (self, GlyphStep::Done(Err(err))),
            }
        }
    }

    /// Takes the reply to the outstanding call and says what to do next.
    pub fn reply(&mut self, reply: EngineReply) -> (step: GlyphStep)
        ensures
            (*final(self), step) == old(self).next(reply),
    {
        if self.loaded {
            GlyphStep::Done(ft_result(EngineCall::RenderGlyph { render_mode: self.render_mode }, reply, ()))
        } else {
            let load = EngineCall::LoadGlyph { glyph_index: self.glyph_index, load_flags: self.load_flags };
            match ft_result(load, reply, ()) {
                Ok(_) => {
                    self.loaded = true;
                    GlyphStep::Call(EngineCall::RenderGlyph { render_mode: self.render_mode })
                },
                Err(err) => GlyphStep::Done(Err(err)),
            }
        }
    }
}

impl Face {
    /// Starts loading glyph `glyph_index` under `load_flags` and rendering
    /// it in `render_mode`. Returns the request and its first call; the
    /// replies go to [`GlyphRequest::reply`].
    pub fn load_and_render_glyph(&mut self, glyph_index: u32, load_flags: i32, render_mode: RenderMode) -> (r: (
        GlyphRequest,
        EngineCall,
    ))
        ensures
            r == GlyphRequest::started(glyph_index, load_flags, render_mode),
            *final(self) == *old(self),
    {
        (
            GlyphRequest { glyph_index, load_flags, render_mode, loaded: false },
            EngineCall::LoadGlyph { glyph_index, load_flags },
        )
    }
}

/// A glyph request is over after two replies at most, it renders only what
/// it has loaded, and it ends well only if both calls succeeded.
pub proof fn lemma_glyph_request_order(
    glyph_index: u32,
    load_flags: i32,
    render_mode: RenderMode,
    load: EngineReply,
    render: EngineReply,
)
    ensures
        ({
            let (request, first) = GlyphRequest::started(glyph_index, load_flags, render_mode);
            let (loaded, second) = request.next(load);
            let (_, third) = loaded.next(render);
            &&& first == EngineCall::LoadGlyph { glyph_index, load_flags }
            &&& (second is Done <==> load.status != 0)
            &&& (second is Call ==> second == GlyphStep::Call(EngineCall::RenderGlyph { render_mode }) && third
                is Done)
            &&& (second is Call && third == GlyphStep::Done(Ok(())) <==> load.status == 0 && render.status
                == 0)
        }),
{
}

} // verus!
