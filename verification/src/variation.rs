//! Variable fonts: the axes of a face, its named instances, and what an
//! instance does to the weight and width classes of the face.
//!
//! An instance moves the face along each axis, from the default coordinate
//! of the axis to the coordinate of the instance. For the weight axis and
//! the width axis the ratio of the two is taken as a scale on the class
//! that the face declares. The scaling here is exact: the ratios are
//! multiplied as fractions, and only the end result is rounded.

use vstd::prelude::*;
use vstd::arithmetic::div_mod::{lemma_fundamental_div_mod, lemma_mod_bound};
use crate::bignat::{from_limb, le, mul_small, value};
use crate::engine::{EngineCall, Error};
use crate::face::Face;
use crate::source::FontDataHandle;

verus! {

/// The tag of the weight axis, `wght`.
pub const TAG_WEIGHT: u64 = 0x7767_6874;

/// The tag of the width axis, `wdth`.
pub const TAG_WIDTH: u64 = 0x7764_7468;

/// The weight class of a face that does not declare one.
pub const DEFAULT_WEIGHT_CLASS: u16 = 400;

/// The width class of a face that does not declare one.
pub const DEFAULT_WIDTH_CLASS: u16 = 5;

/// The largest value of a class.
pub const MAX_CLASS: u16 = 65535;

/// One design axis of a variable font. `tag` is the four-byte axis tag and
/// `def` the default coordinate on the axis, in 16.16 fixed point.
#[derive(Debug, Clone, Copy, PartialEq, Eq, Structural)]
pub struct VarAxis {
    pub tag: u64,
    pub def: i64,
}

/// A named instance of a variable font: one coordinate per axis, in 16.16
/// fixed point.
#[derive(Debug, PartialEq, Eq)]
pub struct NamedStyle {
    pub coords: Vec<i64>,
}

/// The variable-font descriptor of a face.
#[derive(Debug, PartialEq, Eq)]
pub struct MmVar {
    pub axes: Vec<VarAxis>,
    pub named_styles: Vec<NamedStyle>,
}

/// The tag that four bytes spell, first byte in the highest place.
pub open spec fn make_tag(a: u8, b: u8, c: u8, d: u8) -> u64 {
    (a as int * 0x100_0000 + b as int * 0x1_0000 + c as int * 0x100 + d as int) as u64
}

/// Makes the tag that four bytes spell.
pub fn ft_make_tag(a: u8, b: u8, c: u8, d: u8) -> (tag: u64)
    ensures
        tag == make_tag(a, b, c, d),
{
    (a as u64) * 0x100_0000 + (b as u64) * 0x1_0000 + (c as u64) * 0x100 + (d as u64)
}

/// A coordinate without its sign.
pub open spec fn magnitude(x: i64) -> nat {
    if x < 0 {
        (-x) as nat
    } else {
        x as nat
    }
}

/// Whether `axis` scales the class that goes with `tag`: it carries the tag,
/// and its default is not zero. An axis whose default is zero scales
/// nothing.
pub open spec fn scales(axis: VarAxis, tag: u64) -> bool {
    axis.tag == tag && axis.def != 0
}

/// The product of the magnitudes of the instance coordinates of the first
/// `n` axes, as far as they scale `tag`.
pub open spec fn scale_num(axes: Seq<VarAxis>, coords: Seq<i64>, tag: u64, n: nat) -> nat
    decreases n,
{
    if n == 0 {
        1
    } else {
        let rest = scale_num(axes, coords, tag, (n - 1) as nat);
        if scales(axes[n - 1], tag) {
            rest * magnitude(coords[n - 1])
        } else {
            rest
        }
    }
}

/// The product of the magnitudes of the defaults of the first `n` axes, as
/// far as they scale `tag`.
pub open spec fn scale_den(axes: Seq<VarAxis>, tag: u64, n: nat) -> nat
    decreases n,
{
    if n == 0 {
        1
    } else {
        let rest = scale_den(axes, tag, (n - 1) as nat);
        if scales(axes[n - 1], tag) {
            rest * magnitude(axes[n - 1].def)
        } else {
            rest
        }
    }
}

/// Whether an odd number of the ratios of the first `n` axes that scale
/// `tag` have a coordinate and a default of different sign.
pub open spec fn scale_negative(axes: Seq<VarAxis>, coords: Seq<i64>, tag: u64, n: nat) -> bool
    decreases n,
{
    if n == 0 {
        false
    } else {
        let rest = scale_negative(axes, coords, tag, (n - 1) as nat);
        if scales(axes[n - 1], tag) {
            rest != ((coords[n - 1] < 0) != (axes[n - 1].def < 0))
        } else {
            rest
        }
    }
}

/// The fraction `n / d` rounded to the nearest whole number, a half going
/// up, and held to the largest class.
pub open spec fn rounded_ratio(n: nat, d: nat) -> int {
    let r = (2 * n + d) / (2 * d);
    if r > MAX_CLASS {
        MAX_CLASS as int
    } else {
        r as int
    }
}

/// The class `base` scaled along the axes tagged `tag`: `base` times the
/// product of coordinate over default of every such axis whose default is
/// not zero, rounded to the nearest whole number and held to the range of a
/// class. A product that is not positive gives 0.
pub open spec fn scaled_class(base: u16, axes: Seq<VarAxis>, coords: Seq<i64>, tag: u64) -> int {
    if scale_negative(axes, coords, tag, axes.len()) {
        0
    } else {
        rounded_ratio(base as nat * scale_num(axes, coords, tag, axes.len()), scale_den(axes, tag, axes.len()))
    }
}

/// The product of defaults that are not zero is not zero.
pub proof fn lemma_scale_den_positive(axes: Seq<VarAxis>, tag: u64, n: nat)
    ensures
        scale_den(axes, tag, n) > 0,
    decreases n,
{
    if n > 0 {
        lemma_scale_den_positive(axes, tag, (n - 1) as nat);
        let rest = scale_den(axes, tag, (n - 1) as nat);
        if scales(axes[n - 1], tag) {
            let m = magnitude(axes[n - 1].def);
            assert(rest * m > 0) by (nonlinear_arith)
                requires
                    rest > 0,
                    m > 0,
            ;
        }
    }
}

/// Where no axis carries the tag, the class stays what it is.
pub proof fn lemma_unscaled_class(base: u16, axes: Seq<VarAxis>, coords: Seq<i64>, tag: u64)
    requires
        forall|i: int| 0 <= i < axes.len() ==> !scales(#[trigger] axes[i], tag),
    ensures
        scaled_class(base, axes, coords, tag) == base,
{
    lemma_no_scaling(axes, coords, tag, axes.len());
    assert(base as nat * 1 == base);
    assert((2 * base + 1) / 2 == base);
}

proof fn lemma_no_scaling(axes: Seq<VarAxis>, coords: Seq<i64>, tag: u64, n: nat)
    requires
        n <= axes.len(),
        forall|i: int| 0 <= i < axes.len() ==> !scales(#[trigger] axes[i], tag),
    ensures
        scale_num(axes, coords, tag, n) == 1,
        scale_den(axes, tag, n) == 1,
        !scale_negative(axes, coords, tag, n),
    decreases n,
{
    if n > 0 {
        lemma_no_scaling(axes, coords, tag, (n - 1) as nat);
    }
}

/// A single axis with the tag, whose coordinate and default are both
/// positive, scales the class by coordinate over default.
pub proof fn lemma_single_axis_scale(base: u16, axis: VarAxis, coord: i64, tag: u64)
    requires
        axis.tag == tag,
        axis.def > 0,
        coord >= 0,
    ensures
        scaled_class(base, seq![axis], seq![coord], tag) == rounded_ratio(
            base as nat * coord as nat,
            axis.def as nat,
        ),
{
    let axes = seq![axis];
    let coords = seq![coord];
    assert(scale_num(axes, coords, tag, 0) == 1);
    assert(scale_den(axes, tag, 0) == 1);
    assert(!scale_negative(axes, coords, tag, 0));
    assert(scale_num(axes, coords, tag, 1) == 1 * magnitude(coord));
    assert(scale_den(axes, tag, 1) == 1 * magnitude(axis.def));
    assert(!scale_negative(axes, coords, tag, 1));
}

fn magnitude_of(x: i64) -> (m: u64)
    ensures
        m == magnitude(x),
{
    if x >= 0 {
        x as u64
    } else if x == i64::MIN {
        0x8000_0000_0000_0000
    } else {
        (-x) as u64
    }
}

/// For a positive divisor, `r` is at most the quotient exactly if `r`
/// times the divisor is at most the dividend.
proof fn lemma_quotient_bound(r: int, x: int, m: int)
    requires
        m > 0,
        x >= 0,
        r >= 0,
    ensures
        r * m <= x <==> r <= x / m,
{
    lemma_fundamental_div_mod(x, m);
    lemma_mod_bound(x, m);
    let q = x / m;
    let rem = x % m;
    assert(r * m <= x <==> r <= q) by (nonlinear_arith)
        requires
            x == m * q + rem,
            0 <= rem < m,
            m > 0,
            r >= 0,
    ;
}

fn round_ratio(num: &Vec<u32>, den: &Vec<u32>) -> (class: u16)
    requires
        value(den@) > 0,
    ensures
        class == rounded_ratio(value(num@), value(den@)),
{
    let ghost n = value(num@) as int;
    let ghost d = value(den@) as int;
    let ghost x = 2 * n + d;
    let ghost m = 2 * d;
    let twice = mul_small(num, 2);
    let mut lo: u32 = 0;
    let mut hi: u32 = 65535;
    assert(0 * m == 0);
    while lo < hi
        invariant
            0 <= lo <= hi <= 65535,
            n == value(num@),
            d == value(den@),
            d > 0,
            x == 2 * n + d,
            m == 2 * d,
            value(twice@) == 2 * n,
            lo * m <= x,
            hi == 65535 || (hi + 1) * m > x,
        decreases hi - lo,
    {
        let mid: u32 = lo + (hi - lo + 1) / 2;
        let odd: u64 = (2 * mid - 1) as u64;
        let probe = mul_small(den, odd);
        let fits: bool = le(&probe, &twice);
        proof {
            assert(value(probe@) == d * odd);
            assert((d * odd <= 2 * n) <==> (mid * m <= x)) by (nonlinear_arith)
                requires
                    odd == 2 * mid - 1,
                    m == 2 * d,
                    x == 2 * n + d,
            ;
        }
        if fits {
            lo = mid;
        } else {
            hi = mid - 1;
        }
    }
    proof {
        lemma_quotient_bound(lo as int, x, m);
        lemma_quotient_bound(lo as int + 1, x, m);
    }
    lo as u16
}

/// Scales the class `base` along the axes tagged `tag`, for the instance
/// with the coordinates `coords`.
pub fn scale_class(base: u16, axes: &Vec<VarAxis>, coords: &Vec<i64>, tag: u64) -> (class: u16)
    requires
        coords.len() == axes.len(),
    ensures
        class == scaled_class(base, axes@, coords@, tag),
{
    let mut num: Vec<u32> = from_limb(base as u32);
    let mut den: Vec<u32> = from_limb(1);
    let mut negative: bool = false;
    let mut i: usize = 0;
    assert(base as nat * 1 == base);
    while i < axes.len()
        invariant
            0 <= i <= axes.len(),
            coords.len() == axes.len(),
            value(num@) == base as nat * scale_num(axes@, coords@, tag, i as nat),
            value(den@) == scale_den(axes@, tag, i as nat),
            negative == scale_negative(axes@, coords@, tag, i as nat),
        decreases axes.len() - i,
    {
        let axis: VarAxis = axes[i];
        if axis.tag == tag && axis.def != 0 {
            let coord: i64 = coords[i];
            let by: u64 = magnitude_of(coord);
            let ghost rest = scale_num(axes@, coords@, tag, i as nat);
            num = mul_small(&num, by);
            den = mul_small(&den, magnitude_of(axis.def));
            negative = negative != ((coord < 0) != (axis.def < 0));
            proof {
                assert((base as nat * rest) * by == base as nat * (rest * by)) by (nonlinear_arith);
            }
        }
        i += 1;
    }
    proof {
        lemma_scale_den_positive(axes@, tag, axes@.len());
    }
    if negative {
        0
    } else {
        round_ratio(&num, &den)
    }
}

/// One step of going through the named instances of a face.
#[derive(Debug, PartialEq, Eq)]
pub enum VariationStep {
    /// Make this engine call, which switches the face to an instance.
    Call(EngineCall),
    /// Describe the face as it now is, under this handle.
    Describe(FontDataHandle),
}

impl MmVar {
    /// The number of named instances fits the 32-bit count that the engine
    /// keeps of them.
    pub open spec fn countable(self) -> bool {
        self.named_styles@.len() <= u32::MAX
    }
}

impl Face {
    /// The named instance that the face was opened with, which the engine
    /// keeps in the upper bits of the face index; 0 is the default
    /// instance.
    pub open spec fn variation_spec(self) -> int {
        if self.face.face_index >= 0x1_0000 {
            self.face.face_index as int / 0x1_0000
        } else {
            0
        }
    }

    /// The face has what its named instance needs: if it was opened with
    /// one, it has a variable-font descriptor, the descriptor has that
    /// instance, and the instance has one coordinate for each axis.
    pub open spec fn instance_known(self) -> bool {
        self.variation_spec() > 0 ==> (self.face.mm_var matches Some(mm) && self.variation_spec()
            <= mm.named_styles@.len() && mm.named_styles@[self.variation_spec() - 1].coords@.len()
            == mm.axes@.len())
    }

    /// The weight and width class that the face declares, or the defaults
    /// where it declares nothing.
    pub open spec fn declared_classes(self) -> (u16, u16) {
        match self.face.os2 {
            Some(os2) => (os2.us_weight_class, os2.us_width_class),
            None => (DEFAULT_WEIGHT_CLASS, DEFAULT_WIDTH_CLASS),
        }
    }

    /// The weight and width class of the face as it was opened.
    pub open spec fn weight_and_width_spec(self) -> (u16, u16) {
        let (weight, width) = self.declared_classes();
        if self.variation_spec() > 0 {
            let mm = self.face.mm_var->0;
            let coords = mm.named_styles@[self.variation_spec() - 1].coords@;
            (
                scaled_class(weight, mm.axes@, coords, TAG_WEIGHT) as u16,
                scaled_class(width, mm.axes@, coords, TAG_WIDTH) as u16,
            )
        } else {
            (weight, width)
        }
    }

    /// The variations of a face with the descriptor `mm`: the source of the
    /// face once for each named instance, in order, instance `i + 1` at
    /// place `i`.
    pub open spec fn variations_of(self, mm: MmVar) -> Seq<FontDataHandle> {
        Seq::new(
            mm.named_styles@.len(),
            |i: int|
                FontDataHandle {
                    source: self.source.source,
                    index: self.source.index,
                    variation: (i + 1) as u32,
                    origin: self.source.origin,
                },
        )
    }

    /// The steps that go through the variations `handles`: each instance is
    /// switched to and then described, and at the very end the face is
    /// switched back to instance 0.
    pub open spec fn steps_through(handles: Seq<FontDataHandle>) -> Seq<VariationStep> {
        Seq::new(
            2 * handles.len() + 1,
            |i: int|
                if i == 2 * handles.len() {
                    VariationStep::Call(EngineCall::SetNamedInstance { instance_index: 0 })
                } else if i % 2 == 0 {
                    VariationStep::Call(EngineCall::SetNamedInstance { instance_index: handles[i / 2].variation })
                } else {
                    VariationStep::Describe(handles[i / 2])
                },
        )
    }

    /// The named instance that the face was opened with; 0 is the default
    /// instance.
    pub fn variation(&self) -> (instance: u64)
        ensures
            instance == self.variation_spec(),
    {
        if self.face.face_index >= 0x1_0000 {
            (self.face.face_index as u64) / 0x1_0000
        } else {
            0
        }
    }

    /// Whether [`Face::weight_and_width`] may be called: see
    /// [`Face::instance_known`].
    pub fn is_instance_known(&self) -> (known: bool)
        ensures
            known == self.instance_known(),
    {
        let instance: u64 = self.variation();
        if instance == 0 {
            return true;
        }
        match &self.face.mm_var {
            Some(mm) => {
                if instance > mm.named_styles.len() as u64 {
                    false
                } else {
                    let idx: usize = (instance - 1) as usize;
                    mm.named_styles[idx].coords.len() == mm.axes.len()
                }
            },
            None => false,
        }
    }

    /// The weight and width class of the face.
    ///
    /// A face opened at its default instance has the classes that it
    /// declares, or 400 and 5 where it declares none. A face opened at a
    /// named instance has these classes scaled: the weight class by the
    /// ratio of instance coordinate to default on every axis tagged
    /// `wght`, the width class likewise for `wdth`. An axis whose default
    /// is zero scales nothing. The scaled class is rounded to the nearest
    /// whole number and held to the range of a class.
    pub fn weight_and_width(&self) -> (classes: (u16, u16))
        requires
            self.instance_known(),
        ensures
            classes == self.weight_and_width_spec(),
    {
        let (weight, width): (u16, u16) = match self.face.os2 {
            Some(os2) => (os2.us_weight_class, os2.us_width_class),
            None => (DEFAULT_WEIGHT_CLASS, DEFAULT_WIDTH_CLASS),
        };
        let instance: u64 = self.variation();
        if instance > 0 {
            match &self.face.mm_var {
                Some(mm) => {
                    assert(instance <= mm.named_styles.len());
                    let idx: usize = (instance - 1) as usize;
                    let coords = &mm.named_styles[idx].coords;
                    (
                        scale_class(weight, &mm.axes, coords, TAG_WEIGHT),
                        scale_class(width, &mm.axes, coords, TAG_WIDTH),
                    )
                },
                None => (weight, width),
            }
        } else {
            (weight, width)
        }
    }

    /// The named instances of the face, each as the data source of the
    /// face tagged with the number of the instance, counting from 1.
    ///
    /// A face without a variable-font descriptor has no variations, and
    /// asking for them is an error. To describe an instance the engine has
    /// to be switched to it, and back to instance 0 once all are done:
    /// [`Face::variation_steps`] spells that out.
    pub fn variations(&self) -> (r: Result<Vec<FontDataHandle>, Error>)
        requires
            self.face.mm_var matches Some(mm) ==> mm.countable(),
        ensures
            match self.face.mm_var {
                Some(mm) => r matches Ok(handles) && handles@ == self.variations_of(mm),
                None => r == Err::<Vec<FontDataHandle>, Error>(Error::NotVariable),
            },
    {
        match &self.face.mm_var {
            Some(mm) => {
                let mut handles: Vec<FontDataHandle> = Vec::new();
                let mut i: usize = 0;
                while i < mm.named_styles.len()
                    invariant
                        0 <= i <= mm.named_styles.len(),
                        mm.named_styles@.len() <= u32::MAX,
                        handles@.len() == i,
                        forall|j: int| 0 <= j < i ==> handles@[j] == self.variations_of(*mm)[j],
                    decreases mm.named_styles.len() - i,
                {
                    let source = self.source.source.clone();
                    handles.push(
                        FontDataHandle {
                            source,
                            index: self.source.index,
                            variation: (i + 1) as u32,
                            origin: self.source.origin,
                        },
                    );
                    i += 1;
                }
                assert(handles@ =~= self.variations_of(*mm));
                Ok(handles)
            },
            None => Err(Error::NotVariable),
        }
    }

    /// What it takes to describe every named instance of the face, step by
    /// step: for each instance in order the call that makes it the active
    /// one and then its handle, and after the last one the call that makes
    /// instance 0 the active one again. That last call is due even if a
    /// description fails on the way.
    ///
    /// While the steps are gone through, the face must not be used for
    /// anything else.
    pub fn variation_steps(&self) -> (r: Result<Vec<VariationStep>, Error>)
        requires
            self.face.mm_var matches Some(mm) ==> mm.countable(),
        ensures
            match self.face.mm_var {
                Some(mm) => r matches Ok(steps) && steps@ == Self::steps_through(self.variations_of(mm)),
                None => r == Err::<Vec<VariationStep>, Error>(Error::NotVariable),
            },
    {
        let handles = match self.variations() {
            Ok(handles) => handles,
            Err(err) => {
                return Err(err);
            },
        };
        let mut steps: Vec<VariationStep> = Vec::new();
        let mut i: usize = 0;
        while i < handles.len()
            invariant
                0 <= i <= handles.len(),
                steps@.len() == 2 * i,
                forall|k: int| 0 <= k < 2 * i ==> steps@[k] == Self::steps_through(handles@)[k],
            decreases handles.len() - i,
        {
            let handle = handles[i].clone();
            let instance_index: u32 = handle.variation;
            steps.push(VariationStep::Call(EngineCall::SetNamedInstance { instance_index }));
            steps.push(VariationStep::Describe(handle));
            proof {
                assert((2 * i) / 2 == i && (2 * i) % 2 == 0);
                assert((2 * i + 1) / 2 == i && (2 * i + 1) % 2 == 1);
            }
            i += 1;
        }
        steps.push(VariationStep::Call(EngineCall::SetNamedInstance { instance_index: 0 }));
        assert(steps@ =~= Self::steps_through(handles@));
        Ok(steps)
    }
}

} // verus!
