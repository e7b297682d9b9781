//! Cell metrics of a scalable face.
//!
//! The nominal cell height comes from the vertical scale of the active size
//! and the design height of the face. The cell width is the widest
//! horizontal advance among the glyphs of printable ASCII; a face without
//! any of those is probed at its first few glyph indices instead, and if
//! that yields nothing either, the cell is taken to be square.
//!
//! Finding the advances takes one engine call per glyph. [`CellProbe`] keeps
//! track of where the probing stands: it names the next call and folds each
//! reply into the widest advance seen so far.

use vstd::prelude::*;
use crate::engine::{succeeded, EngineCall, EngineReply};
use crate::size::CELL_UNITS_PER_26_6;

verus! {

/// Load flag that asks the engine for colour glyph layers.
pub const FT_LOAD_COLOR: i32 = 0x10_0000;

/// First character code whose advance is probed.
pub const FIRST_PROBED_CHAR: u32 = 32;

/// Last character code whose advance is probed.
pub const LAST_PROBED_CHAR: u32 = 127;

/// First glyph index that is probed when no probed character has an advance.
pub const FIRST_FALLBACK_GLYPH: u32 = 1;

/// Last glyph index that is probed when no probed character has an advance.
pub const LAST_FALLBACK_GLYPH: u32 = 7;

/// Which reply a [`CellProbe`] is waiting for.
#[derive(Debug, Clone, Copy, PartialEq, Eq, Structural)]
pub enum ProbeStage {
    /// The glyph index of character `code`.
    CharIndex { code: u32 },
    /// The load of the glyph that character `code` maps to.
    CharGlyph { code: u32 },
    /// The load of glyph `glyph_index`, probed for want of any character.
    FallbackGlyph { glyph_index: u32 },
    /// Nothing: the metrics are known.
    Finished,
}

/// A cell-metrics computation in progress.
///
/// `y_scale` is the 16.16 vertical scale of the active size, `height` the
/// design height of the face in font units, and `width` the widest advance
/// seen so far, in 26.6 fixed point.
#[derive(Debug, Clone, Copy, PartialEq, Eq, Structural)]
pub struct CellProbe {
    pub stage: ProbeStage,
    pub y_scale: i64,
    pub height: i16,
    pub width: i64,
}

/// What a [`CellProbe`] wants next: another engine call, or nothing more,
/// because the cell is known. `width` and `height` are in cell units.
#[derive(Debug, Clone, Copy, PartialEq, Eq, Structural)]
pub enum ProbeStep {
    Call(EngineCall),
    Done { width: i128, height: i128 },
}

impl CellProbe {
    /// The nominal cell height in cell units: vertical scale times design
    /// height.
    pub open spec fn cell_height(self) -> int {
        self.y_scale as int * self.height as int
    }

    /// The cell width in cell units: the widest advance, or the cell height
    /// where no glyph had one.
    pub open spec fn cell_width(self) -> int {
        if self.width == 0 {
            self.cell_height()
        } else {
            self.width as int * CELL_UNITS_PER_26_6 as int
        }
    }

    /// The widest advance once `reply` to a glyph load is taken into
    /// account. A failed load is skipped.
    pub open spec fn observe(self, reply: EngineReply) -> i64 {
        if succeeded(reply.status) && reply.advance > self.width {
            reply.advance
        } else {
            self.width
        }
    }

    /// The probe with another stage and widest advance.
    pub open spec fn at(self, stage: ProbeStage, width: i64) -> CellProbe {
        CellProbe { stage, y_scale: self.y_scale, height: self.height, width }
    }

    /// The end of the probing, with `width` as the widest advance.
    pub open spec fn finish(self, width: i64) -> (CellProbe, ProbeStep) {
        let done = self.at(ProbeStage::Finished, width);
        (done, ProbeStep::Done { width: done.cell_width() as i128, height: done.cell_height() as i128 })
    }

    /// What follows once character `code` has been dealt with: the next
    /// character, or the fallback glyphs if no character had an advance, or
    /// the end.
    pub open spec fn after_char(self, code: u32, width: i64) -> (CellProbe, ProbeStep) {
        if code < LAST_PROBED_CHAR {
            let next = (code + 1) as u32;
            (
                self.at(ProbeStage::CharIndex { code: next }, width),
                ProbeStep::Call(EngineCall::GetCharIndex { char_code: next as u64 }),
            )
        } else if width == 0 {
            (
                self.at(ProbeStage::FallbackGlyph { glyph_index: FIRST_FALLBACK_GLYPH }, width),
                ProbeStep::Call(
                    EngineCall::LoadGlyph { glyph_index: FIRST_FALLBACK_GLYPH, load_flags: FT_LOAD_COLOR },
                ),
            )
        } else {
            self.finish(width)
        }
    }

    /// What follows once fallback glyph `glyph_index` has been dealt with.
    pub open spec fn after_fallback(self, glyph_index: u32, width: i64) -> (CellProbe, ProbeStep) {
        if glyph_index < LAST_FALLBACK_GLYPH {
            let next = (glyph_index + 1) as u32;
            (
                self.at(ProbeStage::FallbackGlyph { glyph_index: next }, width),
                ProbeStep::Call(EngineCall::LoadGlyph { glyph_index: next, load_flags: FT_LOAD_COLOR }),
            )
        } else {
            self.finish(width)
        }
    }

    /// A fresh probe and its first call.
    pub open spec fn started(y_scale: i64, height: i16) -> (CellProbe, EngineCall) {
        (
            CellProbe { stage: ProbeStage::CharIndex { code: FIRST_PROBED_CHAR }, y_scale, height, width: 0 },
            EngineCall::GetCharIndex { char_code: FIRST_PROBED_CHAR as u64 },
        )
    }

    /// The probe after `reply` to its outstanding call, and what it wants
    /// next.
    ///
    /// A character without a glyph is passed over without a load. A glyph
    /// whose load fails is passed over too.
    pub open spec fn next(self, reply: EngineReply) -> (CellProbe, ProbeStep) {
        match self.stage {
            ProbeStage::CharIndex { code } => {
                if reply.glyph_index == 0 {
                    self.after_char(code, self.width)
                } else {
                    (
                        self.at(ProbeStage::CharGlyph { code }, self.width),
                        ProbeStep::Call(
                            EngineCall::LoadGlyph { glyph_index: reply.glyph_index, load_flags: FT_LOAD_COLOR },
                        ),
                    )
                }
            },
            ProbeStage::CharGlyph { code } => self.after_char(code, self.observe(reply)),
            ProbeStage::FallbackGlyph { glyph_index } => self.after_fallback(glyph_index, self.observe(reply)),
            ProbeStage::Finished => self.finish(self.width),
        }
    }

    /// An upper bound on the number of replies the probe still takes.
    pub open spec fn budget(self) -> nat {
        match self.stage {
            ProbeStage::CharIndex { code } => if code < LAST_PROBED_CHAR {
                (9 + 2 * (LAST_PROBED_CHAR - code)) as nat
            } else {
                9
            },
            ProbeStage::CharGlyph { code } => if code < LAST_PROBED_CHAR {
                (8 + 2 * (LAST_PROBED_CHAR - code)) as nat
            } else {
                8
            },
            ProbeStage::FallbackGlyph { glyph_index } => if glyph_index < LAST_FALLBACK_GLYPH {
                (8 - glyph_index) as nat
            } else {
                1
            },
            ProbeStage::Finished => 0,
        }
    }

    /// Starts the cell metrics of a face with design height `height`, sized
    /// so that its vertical scale is `y_scale`. Returns the probe and the
    /// first call to make.
    pub fn start(y_scale: i64, height: i16) -> (r: (CellProbe, EngineCall))
        ensures
            r == CellProbe::started(y_scale, height),
    {
        (
            CellProbe { stage: ProbeStage::CharIndex { code: FIRST_PROBED_CHAR }, y_scale, height, width: 0 },
            EngineCall::GetCharIndex { char_code: FIRST_PROBED_CHAR as u64 },
        )
    }

    fn seen(&self, reply: &EngineReply) -> (width: i64)
        ensures
            width == self.observe(*reply),
    {
        if succeeded(reply.status) && reply.advance > self.width {
            reply.advance
        } else {
            self.width
        }
    }

    fn end(&mut self, width: i64) -> (step: ProbeStep)
        ensures
            (*final(self), step) == old(self).finish(width),
    {
        self.stage = ProbeStage::Finished;
        self.width = width;
        assert(-0x8000_0000_0000_0000_0000 <= (self.y_scale as int) * (self.height as int)
            <= 0x8000_0000_0000_0000_0000) by (nonlinear_arith)
            requires
                -0x8000_0000_0000_0000 <= self.y_scale as int <= 0x8000_0000_0000_0000,
                -0x8000 <= self.height as int <= 0x8000,
        ;
        let height: i128 = (self.y_scale as i128) * (self.height as i128);
        let cell_width: i128 = if width == 0 {
            height
        } else {
            (width as i128) * CELL_UNITS_PER_26_6
        };
        ProbeStep::Done { width: cell_width, height }
    }

    fn past_char(&mut self, code: u32, width: i64) -> (step: ProbeStep)
        ensures
            (*final(self), step) == old(self).after_char(code, width),
    {
        if code < LAST_PROBED_CHAR {
            let next: u32 = code + 1;
            self.stage = ProbeStage::CharIndex { code: next };
            self.width = width;
            ProbeStep::Call(EngineCall::GetCharIndex { char_code: next as u64 })
        } else if width == 0 {
            self.stage = ProbeStage::FallbackGlyph { glyph_index: FIRST_FALLBACK_GLYPH };
            self.width = width;
            ProbeStep::Call(
                EngineCall::LoadGlyph { glyph_index: FIRST_FALLBACK_GLYPH, load_flags: FT_LOAD_COLOR },
            )
        } else {
            self.end(width)
        }
    }

    /// Takes the reply to the outstanding call and says what to do next.
    ///
    /// The contract is the whole transition: the new probe and the step are
    /// those of [`CellProbe::next`].
    pub fn reply(&mut self, reply: &EngineReply) -> (step: ProbeStep)
        ensures
            (*final(self), step) == old(self).next(*reply),
            step is Done <==> final(self).stage is Finished,
            !(old(self).stage is Finished) ==> final(self).budget() < old(self).budget(),
    {
        match self.stage {
            ProbeStage::CharIndex { code } => {
                if reply.glyph_index == 0 {
                    let width: i64 = self.width;
                    self.past_char(code, width)
                } else {
                    self.stage = ProbeStage::CharGlyph { code };
                    ProbeStep::Call(
                        EngineCall::LoadGlyph { glyph_index: reply.glyph_index, load_flags: FT_LOAD_COLOR },
                    )
                }
            },
            ProbeStage::CharGlyph { code } => {
                let width: i64 = self.seen(reply);
                self.past_char(code, width)
            },
            ProbeStage::FallbackGlyph { glyph_index } => {
                let width: i64 = self.seen(reply);
                if glyph_index < LAST_FALLBACK_GLYPH {
                    let next: u32 = glyph_index + 1;
                    self.stage = ProbeStage::FallbackGlyph { glyph_index: next };
                    self.width = width;
                    ProbeStep::Call(EngineCall::LoadGlyph { glyph_index: next, load_flags: FT_LOAD_COLOR })
                } else {
                    self.end(width)
                }
            },
            ProbeStage::Finished => {
                let width: i64 = self.width;
                self.end(width)
            },
        }
    }
}

/// The widest advance never shrinks, and after a reply to a glyph load that
/// succeeded it is at least the advance of that glyph.
pub proof fn lemma_probe_keeps_widest(probe: CellProbe, reply: EngineReply)
    ensures
        probe.next(reply).0.width >= probe.width,
        (probe.stage is CharGlyph || probe.stage is FallbackGlyph) && succeeded(reply.status)
            ==> probe.next(reply).0.width >= reply.advance,
        probe.next(reply).0.y_scale == probe.y_scale,
        probe.next(reply).0.height == probe.height,
{
}

/// When the probing ends, the cell height is vertical scale times design
/// height, and the cell width is the widest advance, or the height where
/// there was none.
pub proof fn lemma_probe_result(probe: CellProbe, reply: EngineReply)
    requires
        probe.next(reply).1 is Done,
    ensures
        probe.next(reply).1->height == probe.y_scale as int * probe.height as int,
        probe.next(reply).0.width != 0 ==> probe.next(reply).1->width == probe.next(reply).0.width
            as int * CELL_UNITS_PER_26_6 as int,
        probe.next(reply).0.width == 0 ==> probe.next(reply).1->width == probe.next(reply).1->height,
{
    assert(-0x8000_0000_0000_0000_0000 <= (probe.y_scale as int) * (probe.height as int)
        <= 0x8000_0000_0000_0000_0000) by (nonlinear_arith)
        requires
            -0x8000_0000_0000_0000 <= probe.y_scale as int <= 0x8000_0000_0000_0000,
            -0x8000 <= probe.height as int <= 0x8000,
    ;
}

} // verus!
