//! One opened font program: what the engine says about it, the data source
//! it came from, and the size that was selected for it last.

use vstd::prelude::*;
use crate::engine::{ft_result, ft_result_spec, succeeded, EngineCall, EngineReply, Error};
use crate::metrics::{CellProbe, ProbeStep};
use crate::size::{
    best_strike, best_strike_spec, is_best_strike, lemma_best_strike_exists, target_pixel_height_spec,
    BitmapSize, FaceSize, SelectedFontSize, CELL_UNITS_PER_PIXEL,
};
use crate::source::FontDataHandle;
use crate::variation::MmVar;

verus! {

/// The fields of the OS/2 table that this crate reads.
#[derive(Debug, Clone, Copy, PartialEq, Eq, Structural)]
pub struct Os2Table {
    pub us_weight_class: u16,
    pub us_width_class: u16,
    pub s_cap_height: i16,
}

/// What the engine reports of an opened face and does not change while the
/// face is open. A name that the engine does not have is `None`.
#[derive(Debug, PartialEq, Eq)]
pub struct FaceRecord {
    pub family_name: Option<String>,
    pub style_name: Option<String>,
    pub postscript_name: Option<String>,
    pub style_flags: i64,
    pub face_index: i64,
    pub units_per_em: u16,
    pub height: i16,
    pub available_sizes: Vec<BitmapSize>,
    pub os2: Option<Os2Table>,
    pub mm_var: Option<MmVar>,
}

/// The style flag of an italic or oblique face.
pub const FT_STYLE_FLAG_ITALIC: i64 = 1;

/// The height of capital letters as a share of the em square, as the exact
/// fraction `cap_height / units_per_em`. Neither part is zero.
#[derive(Debug, Clone, Copy, PartialEq, Eq, Structural)]
pub struct CapHeight {
    pub cap_height: i16,
    pub units_per_em: u16,
}

/// Where a size selection stands. Every stage but `Idle` has one engine
/// call outstanding and remembers the request it works for: the point size
/// in 26.6 fixed point, and the resolution.
#[derive(Debug, Clone, Copy, PartialEq, Eq, Structural)]
pub enum Sizing {
    /// No selection is under way.
    Idle,
    /// The scalable size has been requested.
    CharSize { point_size: i64, dpi: u32 },
    /// The scalable size is set and the cell is being measured.
    Metrics { point_size: i64, dpi: u32, probe: CellProbe },
    /// Scalable sizing failed and strike `strike_index` has been requested.
    Strike { point_size: i64, dpi: u32, strike_index: usize, strike: BitmapSize },
}

/// What a size selection wants next: an engine call, or nothing more.
#[derive(Debug, PartialEq, Eq)]
pub enum SizeStep {
    Call(EngineCall),
    Done(Result<SelectedFontSize, Error>),
}

/// One opened face.
#[derive(Debug, PartialEq, Eq)]
pub struct Face {
    pub face: FaceRecord,
    pub source: FontDataHandle,
    pub size: Option<FaceSize>,
    pub sizing: Sizing,
}

/// The call that requests the scalable size of `point_size` at `dpi`: the
/// same size and resolution in both directions.
pub open spec fn char_size_call(point_size: i64, dpi: u32) -> EngineCall {
    EngineCall::SetCharSize {
        char_width: point_size,
        char_height: point_size,
        horz_resolution: dpi,
        vert_resolution: dpi,
    }
}

/// How a request for a scalable size ended, given the reply of the engine
/// and the design height of the face. A face without height cannot be
/// scaled, whatever the engine says.
pub open spec fn char_size_result(call: EngineCall, reply: EngineReply, height: i16) -> Result<(), Error> {
    if !succeeded(reply.status) {
        Err(Error::EngineCallFailure { call, code: reply.status, reason: reply.reason })
    } else if height == 0 {
        Err(Error::DegenerateFace)
    } else {
        Ok(())
    }
}

/// The cell of a bitmap strike: its nominal extents, in cell units.
pub open spec fn strike_cell(strike: BitmapSize) -> SelectedFontSize {
    SelectedFontSize {
        width: (strike.width as int * CELL_UNITS_PER_PIXEL as int) as i128,
        height: (strike.height as int * CELL_UNITS_PER_PIXEL as int) as i128,
        is_scaled: false,
    }
}

/// A name as text: the name itself, or nothing where there is none.
pub open spec fn name_or_empty(name: Option<String>) -> Seq<char> {
    match name {
        Some(name) => name@,
        None => Seq::empty(),
    }
}

fn name_text(name: &Option<String>) -> (text: String)
    ensures
        text@ == name_or_empty(*name),
{
    match name {
        Some(name) => name.clone(),
        None => String::new(),
    }
}

impl Sizing {
    /// The request that the selection under way works for.
    pub open spec fn request(self) -> Option<(i64, u32)> {
        match self {
            Sizing::Idle => None,
            Sizing::CharSize { point_size, dpi } => Some((point_size, dpi)),
            Sizing::Metrics { point_size, dpi, .. } => Some((point_size, dpi)),
            Sizing::Strike { point_size, dpi, .. } => Some((point_size, dpi)),
        }
    }
}

impl Face {
    /// The face at another stage of size selection.
    pub open spec fn at(self, sizing: Sizing) -> Face {
        Face { face: self.face, source: self.source, size: self.size, sizing }
    }

    /// The face after a selection for `point_size` at `dpi` ended in
    /// `selected`, and the step that reports it.
    pub open spec fn selected(self, point_size: i64, dpi: u32, selected: SelectedFontSize) -> (Face, SizeStep) {
        (
            Face {
                face: self.face,
                source: self.source,
                size: Some(
                    FaceSize {
                        size: point_size,
                        dpi,
                        cell_width: selected.width,
                        cell_height: selected.height,
                        is_scaled: selected.is_scaled,
                    },
                ),
                sizing: Sizing::Idle,
            },
            SizeStep::Done(Ok(selected)),
        )
    }

    /// The face after a selection failed with `err`, and the step that
    /// reports it. The size selected last stays as it was.
    pub open spec fn failed(self, err: Error) -> (Face, SizeStep) {
        (self.at(Sizing::Idle), SizeStep::Done(Err(err)))
    }

    /// The start of a size selection: answered from the last selection where
    /// that was made for the same request, and else begun with a request for
    /// the scalable size.
    pub open spec fn size_begun(self, point_size: i64, dpi: u32) -> (Face, SizeStep) {
        match self.size {
            Some(cached) if cached.answers(point_size, dpi) => (self, SizeStep::Done(Ok(cached.selected()))),
            _ => (
                self.at(Sizing::CharSize { point_size, dpi }),
                SizeStep::Call(char_size_call(point_size, dpi)),
            ),
        }
    }

    /// What follows a failed scalable sizing: the strike nearest to the
    /// exact target pixel height of the request is requested, or the
    /// selection fails for want of any.
    pub open spec fn fallen_back(self, point_size: i64, dpi: u32, cause: Error) -> (Face, SizeStep) {
        match best_strike_spec(self.face.available_sizes@, target_pixel_height_spec(point_size, dpi)) {
            Some(idx) => (
                self.at(
                    Sizing::Strike {
                        point_size,
                        dpi,
                        strike_index: idx as usize,
                        strike: self.face.available_sizes@[idx],
                    },
                ),
                SizeStep::Call(EngineCall::SelectSize { strike_index: idx as usize }),
            ),
            None => self.failed(Error::NoFixedSizes { cause: Box::new(cause) }),
        }
    }

    /// The face after `reply` to the outstanding call of its size
    /// selection, and what the selection wants next.
    pub open spec fn size_next(self, reply: EngineReply) -> (Face, SizeStep) {
        match self.sizing {
            Sizing::Idle => (self, SizeStep::Done(Err(Error::NoSelection))),
            Sizing::CharSize { point_size, dpi } => {
                match char_size_result(char_size_call(point_size, dpi), reply, self.face.height) {
                    Ok(_) => {
                        let (probe, call) = CellProbe::started(reply.y_scale, self.face.height);
                        (self.at(Sizing::Metrics { point_size, dpi, probe }), SizeStep::Call(call))
                    },
                    Err(cause) => self.fallen_back(point_size, dpi, cause),
                }
            },
            Sizing::Metrics { point_size, dpi, probe } => {
                let (probe, step) = probe.next(reply);
                match step {
                    ProbeStep::Call(call) => (
                        self.at(Sizing::Metrics { point_size, dpi, probe }),
                        SizeStep::Call(call),
                    ),
                    ProbeStep::Done { width, height } => self.selected(
                        point_size,
                        dpi,
                        SelectedFontSize { width, height, is_scaled: true },
                    ),
                }
            },
            Sizing::Strike { point_size, dpi, strike_index, strike } => {
                match ft_result_spec(EngineCall::SelectSize { strike_index }, reply, ()) {
                    Ok(_) => self.selected(point_size, dpi, strike_cell(strike)),
                    Err(err) => self.failed(err),
                }
            },
        }
    }

    /// The ratio of cap height to em size, where both are known.
    pub open spec fn cap_height_spec(self) -> Option<CapHeight> {
        match self.face.os2 {
            Some(os2) => if self.face.units_per_em == 0 || os2.s_cap_height == 0 {
                None
            } else {
                Some(CapHeight { cap_height: os2.s_cap_height, units_per_em: self.face.units_per_em })
            },
            None => None,
        }
    }

    /// The family name of the face, which is empty if the face has none.
    pub fn family_name(&self) -> (name: String)
        ensures
            name@ == name_or_empty(self.face.family_name),
    {
        name_text(&self.face.family_name)
    }

    /// The style name of the face, which is empty if the face has none.
    pub fn style_name(&self) -> (name: String)
        ensures
            name@ == name_or_empty(self.face.style_name),
    {
        name_text(&self.face.style_name)
    }

    /// The PostScript name of the face, which is empty if the face has
    /// none.
    pub fn postscript_name(&self) -> (name: String)
        ensures
            name@ == name_or_empty(self.face.postscript_name),
    {
        name_text(&self.face.postscript_name)
    }

    /// The OS/2 table of the face, if it has one.
    pub fn get_os2_table(&self) -> (table: Option<&Os2Table>)
        ensures
            match table {
                Some(os2) => self.face.os2 == Some(*os2),
                None => self.face.os2 is None,
            },
    {
        match &self.face.os2 {
            Some(os2) => Some(os2),
            None => None,
        }
    }

    /// The ratio of cap height to em size. It is known only if the face has
    /// an OS/2 table and neither the cap height nor the em size is zero.
    pub fn cap_height(&self) -> (ratio: Option<CapHeight>)
        ensures
            ratio == self.cap_height_spec(),
    {
        match self.face.os2 {
            Some(os2) => {
                if self.face.units_per_em == 0 || os2.s_cap_height == 0 {
                    None
                } else {
                    Some(CapHeight { cap_height: os2.s_cap_height, units_per_em: self.face.units_per_em })
                }
            },
            None => None,
        }
    }

    /// Whether the face is italic or oblique.
    pub fn italic(&self) -> (italic: bool)
        ensures
            italic == (self.face.style_flags & FT_STYLE_FLAG_ITALIC != 0),
    {
        (self.face.style_flags & FT_STYLE_FLAG_ITALIC) != 0
    }

    /// Starts measuring the cell of the face at its active scalable size,
    /// whose vertical scale is `y_scale`. Returns the probe and its first
    /// call; the replies go to [`CellProbe::reply`].
    pub fn cell_metrics(&mut self, y_scale: i64) -> (r: (CellProbe, EngineCall))
        ensures
            r == CellProbe::started(y_scale, old(self).face.height),
            *final(self) == *old(self),
    {
        CellProbe::start(y_scale, self.face.height)
    }

    /// Wraps a freshly opened face. No size has been selected for it yet.
    pub fn new(face: FaceRecord, source: FontDataHandle) -> (opened: Face)
        ensures
            opened == (Face { face, source, size: None, sizing: Sizing::Idle }),
    {
        Face { face, source, size: None, sizing: Sizing::Idle }
    }

    /// Reads the reply to a request for a scalable size. The request has
    /// failed if the engine says so, and also if the face has no design
    /// height, in which case only a bitmap strike can help.
    pub fn set_char_size(&self, call: EngineCall, reply: EngineReply) -> (r: Result<(), Error>)
        ensures
            r == char_size_result(call, reply, self.face.height),
    {
        if !succeeded(reply.status) {
            Err(Error::EngineCallFailure { call, code: reply.status, reason: reply.reason })
        } else if self.face.height == 0 {
            Err(Error::DegenerateFace)
        } else {
            Ok(())
        }
    }

    /// Reads the reply to the selection of strike `strike_index`.
    pub fn select_size(&self, strike_index: usize, reply: EngineReply) -> (r: Result<(), Error>)
        ensures
            r == ft_result_spec(EngineCall::SelectSize { strike_index }, reply, ()),
    {
        ft_result(EngineCall::SelectSize { strike_index }, reply, ())
    }

    fn finish_size(&mut self, point_size: i64, dpi: u32, selected: SelectedFontSize) -> (step: SizeStep)
        ensures
            (*final(self), step) == old(self).selected(point_size, dpi, selected),
    {
        self.size = Some(
            FaceSize {
                size: point_size,
                dpi,
                cell_width: selected.width,
                cell_height: selected.height,
                is_scaled: selected.is_scaled,
            },
        );
        self.sizing = Sizing::Idle;
        SizeStep::Done(Ok(selected))
    }

    fn fall_back(&mut self, point_size: i64, dpi: u32, cause: Error) -> (step: SizeStep)
        ensures
            (*final(self), step) == old(self).fallen_back(point_size, dpi, cause),
    {
        match best_strike(&self.face.available_sizes, point_size, dpi) {
            Some(idx) => {
                let strike: BitmapSize = self.face.available_sizes[idx];
                self.sizing = Sizing::Strike { point_size, dpi, strike_index: idx, strike };
                SizeStep::Call(EngineCall::SelectSize { strike_index: idx })
            },
            None => {
                self.sizing = Sizing::Idle;
                SizeStep::Done(Err(Error::NoFixedSizes { cause: Box::new(cause) }))
            },
        }
    }

    /// Starts the selection of the size `point_size` (26.6 fixed point) at
    /// `dpi`.
    ///
    /// If the size selected last was selected for this very request, it is
    /// returned as it is and the face does not change: no engine call is
    /// made. Otherwise the first call of a fresh selection is returned, and
    /// the replies go to [`Face::size_reply`] until that says `Done`.
    pub fn set_font_size(&mut self, point_size: i64, dpi: u32) -> (step: SizeStep)
        ensures
            (*final(self), step) == old(self).size_begun(point_size, dpi),
    {
        match self.size {
            Some(cached) => {
                if cached.size == point_size && cached.dpi == dpi {
                    return SizeStep::Done(
                        Ok(
                            SelectedFontSize {
                                width: cached.cell_width,
                                height: cached.cell_height,
                                is_scaled: cached.is_scaled,
                            },
                        ),
                    );
                }
            },
            None => {},
        }
        self.sizing = Sizing::CharSize { point_size, dpi };
        SizeStep::Call(
            EngineCall::SetCharSize {
                char_width: point_size,
                char_height: point_size,
                horz_resolution: dpi,
                vert_resolution: dpi,
            },
        )
    }

    /// Takes the reply to the outstanding call of the size selection and
    /// says what to do next.
    ///
    /// A scalable size that the engine grants is followed by the measuring
    /// of the cell. One that fails, or a face without design height, is
    /// followed by the request for the bitmap strike whose height is nearest
    /// to the target pixel height, which is `point_size * dpi / 72` taken
    /// exactly, the first of several equally near ones;
    /// without any strike the selection fails and reports the scalable
    /// failure as its cause. A selection that ends well is remembered with
    /// its request.
    pub fn size_reply(&mut self, reply: EngineReply) -> (step: SizeStep)
        ensures
            (*final(self), step) == old(self).size_next(reply),
    {
        match self.sizing {
            Sizing::Idle => SizeStep::Done(Err(Error::NoSelection)),
            Sizing::CharSize { point_size, dpi } => {
                let call = EngineCall::SetCharSize {
                    char_width: point_size,
                    char_height: point_size,
                    horz_resolution: dpi,
                    vert_resolution: dpi,
                };
                let y_scale: i64 = reply.y_scale;
                match self.set_char_size(call, reply) {
                    Ok(_) => {
                        let (probe, call) = CellProbe::start(y_scale, self.face.height);
                        self.sizing = Sizing::Metrics { point_size, dpi, probe };
                        SizeStep::Call(call)
                    },
                    Err(cause) => self.fall_back(point_size, dpi, cause),
                }
            },
            Sizing::Metrics { point_size, dpi, probe } => {
                let mut probe = probe;
                match probe.reply(&reply) {
                    ProbeStep::Call(call) => {
                        self.sizing = Sizing::Metrics { point_size, dpi, probe };
                        SizeStep::Call(call)
                    },
                    ProbeStep::Done { width, height } => self.finish_size(
                        point_size,
                        dpi,
                        SelectedFontSize { width, height, is_scaled: true },
                    ),
                }
            },
            Sizing::Strike { point_size, dpi, strike_index, strike } => {
                match self.select_size(strike_index, reply) {
                    Ok(_) => self.finish_size(
                        point_size,
                        dpi,
                        SelectedFontSize {
                            width: (strike.width as i128) * CELL_UNITS_PER_PIXEL,
                            height: (strike.height as i128) * CELL_UNITS_PER_PIXEL,
                            is_scaled: false,
                        },
                    ),
                    Err(err) => {
                        self.sizing = Sizing::Idle;
                        SizeStep::Done(Err(err))
                    },
                }
            },
        }
    }
}

/// Asking for a size that the face has selected last is answered at once:
/// the answer is that selection, no engine call is asked for, and the face
/// stays as it is. So asking twice in a row gives the same answer twice.
pub proof fn lemma_set_font_size_idempotent(face: Face, point_size: i64, dpi: u32)
    requires
        face.size_begun(point_size, dpi).1 is Done,
    ensures
        face.size matches Some(cached) && cached.answers(point_size, dpi) && face.size_begun(point_size, dpi)
            == (face, SizeStep::Done(Ok(cached.selected()))),
        face.size_begun(point_size, dpi).0.size_begun(point_size, dpi) == face.size_begun(point_size, dpi),
{
}

/// A selection that ends well is remembered with its request: from then on
/// the same request is answered with the same result and without an engine
/// call, and the face does not change.
pub proof fn lemma_selected_size_is_remembered(face: Face, reply: EngineReply, selected: SelectedFontSize)
    requires
        face.size_next(reply).1 == SizeStep::Done(Ok(selected)),
    ensures
        face.sizing.request() matches Some((point_size, dpi)) && ({
            let after = face.size_next(reply).0;
            &&& after.sizing is Idle
            &&& after.size matches Some(cached) && cached.answers(point_size, dpi) && cached.selected()
                == selected
            &&& after.size_begun(point_size, dpi) == (after, SizeStep::Done(Ok(selected)))
        }),
{
}

/// Only a selection that ends well changes the size that the face
/// remembers. The record and the source of the face never change.
pub proof fn lemma_size_changes_only_on_success(face: Face, reply: EngineReply)
    ensures
        !(face.size_next(reply).1 matches SizeStep::Done(Ok(_))) ==> face.size_next(reply).0.size == face.size,
        face.size_next(reply).0.face == face.face,
        face.size_next(reply).0.source == face.source,
        face.size_next(reply).1 is Done ==> face.size_next(reply).0.sizing is Idle,
        face.size_next(reply).1 is Call ==> face.size_next(reply).0.sizing.request() == face.sizing.request()
            && !(face.sizing is Idle),
{
}

/// The strike that a failed scalable sizing falls back to is the first of
/// the strikes whose height is nearest to the exact target pixel height of the
/// request, and without any strike the selection fails with the scalable
/// failure as its cause.
pub proof fn lemma_fallback_picks_nearest_strike(face: Face, point_size: i64, dpi: u32, cause: Error)
    ensures
        face.face.available_sizes@.len() == 0 ==> face.fallen_back(point_size, dpi, cause).1 == SizeStep::Done(
            Err(Error::NoFixedSizes { cause: Box::new(cause) }),
        ),
        face.face.available_sizes@.len() > 0 ==> (face.fallen_back(point_size, dpi, cause).1 matches SizeStep::Call(
            EngineCall::SelectSize { strike_index },
        ) && is_best_strike(
            face.face.available_sizes@,
            target_pixel_height_spec(point_size, dpi),
            strike_index as int,
        )),
{
    let sizes = face.face.available_sizes@;
    let target = target_pixel_height_spec(point_size, dpi);
    if sizes.len() > 0 {
        lemma_best_strike_exists(sizes, target);
        assert(sizes.len() == face.face.available_sizes.len());
    }
}

} // verus!
