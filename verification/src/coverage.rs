//! Which code points a face covers.
//!
//! A face is asked through two of its character maps, Unicode first and
//! Microsoft Symbol second. Whatever a supported map has a glyph for is
//! covered. Symbol fonts keep their glyphs in the private-use range
//! 0xF000..=0xF0FF, and by a convention of long standing the same glyphs
//! answer for 0x0000..=0x00FF, so a face with a symbol map covers those
//! as well.
//!
//! The coverage is kept in a `RangeSet` of the `rangeset` crate. Its ranges
//! are half open, so a set that is to hold every 32-bit code point needs
//! 64-bit bounds.

use rangeset::set::RangeSet;
use vstd::prelude::*;
use crate::face::Face;

verus! {

/// First code point of the private-use range of symbol fonts.
pub const SYMBOL_RANGE_FIRST: u32 = 0xF000;

/// Last code point of the private-use range of symbol fonts.
pub const SYMBOL_RANGE_LAST: u32 = 0xF0FF;

/// `rangeset::set::RangeSet`, a set of values kept as sorted, disjoint,
/// half-open ranges. Nothing of its inside is known here.
#[verifier::external_type_specification]
#[verifier::external_body]
#[verifier::reject_recursive_types(T)]
pub struct ExRangeSet<T>(rangeset::set::RangeSet<T>);

/// The values that a range set holds: those that lie in one of its ranges.
pub uninterp spec fn range_set_values(set: RangeSet<u64>) -> Set<u64>;

/// `RangeSet::default`: a set without any range, which holds no value.
#[verifier::external_body]
fn empty_range_set() -> (set: RangeSet<u64>)
    ensures
        range_set_values(set) == Set::<u64>::empty(),
{
    RangeSet::default()
}

/// `RangeSet::union_mut` with one range: afterwards the set holds what it
/// held before and every value from `start` up to, but not including,
/// `end`. An empty range adds nothing.
#[verifier::external_body]
fn union_range(set: &mut RangeSet<u64>, start: u64, end: u64)
    ensures
        range_set_values(*final(set)) == range_set_values(*old(set)).union(
            Set::new(|v: u64| start <= v < end),
        ),
{
    set.union_mut(start..end)
}

/// `RangeSet::contains`: whether the set holds `value`.
#[verifier::external_body]
fn range_set_contains(set: &RangeSet<u64>, value: u64) -> (found: bool)
    ensures
        found == range_set_values(*set).contains(value),
{
    set.contains(&value)
}

/// The character codes that the character maps of a face have glyphs for,
/// as the engine hands them out when a map is walked from its first entry to
/// its last. A map that the face does not have is `None`.
#[derive(Debug, PartialEq, Eq)]
pub struct CharMaps {
    pub unicode: Option<Vec<u64>>,
    pub ms_symbol: Option<Vec<u64>>,
}

/// The code point of a character code: its low 32 bits.
pub open spec fn code_point(char_code: u64) -> u32 {
    char_code as u32
}

/// Whether one of the first `n` entries of `chars` is code point `c`.
pub open spec fn mapped_within(chars: Seq<u64>, n: int, c: u32) -> bool {
    exists|i: int| 0 <= i < n && i < chars.len() && code_point(#[trigger] chars[i]) == c
}

/// Whether the character map `chars` maps code point `c`.
pub open spec fn mapped(chars: Option<Vec<u64>>, c: u32) -> bool {
    chars matches Some(chars) && mapped_within(chars@, chars@.len() as int, c)
}

/// Whether a face with the character maps `maps` covers code point `c`:
/// one of its maps has it, or the face has a symbol map, `c` is below
/// 0x100, and one of its maps has `c + 0xF000`.
pub open spec fn covered(maps: CharMaps, c: u32) -> bool {
    ||| mapped(maps.unicode, c)
    ||| mapped(maps.ms_symbol, c)
    ||| (maps.ms_symbol is Some && c <= SYMBOL_RANGE_LAST - SYMBOL_RANGE_FIRST && (mapped(
        maps.unicode,
        (c + SYMBOL_RANGE_FIRST) as u32,
    ) || mapped(maps.ms_symbol, (c + SYMBOL_RANGE_FIRST) as u32)))
}

/// The coverage of a face with the character maps `maps`, as the values of
/// a range set.
pub open spec fn coverage_of(maps: CharMaps) -> Set<u64> {
    Set::new(|v: u64| v <= u32::MAX && covered(maps, v as u32))
}

/// Adds every code point of `chars` to `coverage`.
fn add_all(coverage: &mut RangeSet<u64>, chars: &Vec<u64>)
    ensures
        range_set_values(*final(coverage)) == range_set_values(*old(coverage)).union(
            Set::new(|v: u64| v <= u32::MAX && mapped_within(chars@, chars@.len() as int, v as u32)),
        ),
{
    let ghost before = range_set_values(*coverage);
    let mut i: usize = 0;
    assert(range_set_values(*coverage) =~= before.union(
        Set::new(|v: u64| v <= u32::MAX && mapped_within(chars@, 0, v as u32)),
    ));
    while i < chars.len()
        invariant
            0 <= i <= chars.len(),
            range_set_values(*coverage) == before.union(
                Set::new(|v: u64| v <= u32::MAX && mapped_within(chars@, i as int, v as u32)),
            ),
        decreases chars.len() - i,
    {
        let c: u32 = #[verifier::truncate]
        (chars[i] as u32);
        let start: u64 = c as u64;
        union_range(coverage, start, start + 1);
        proof {
            let grown = before.union(
                Set::new(|v: u64| v <= u32::MAX && mapped_within(chars@, i as int + 1, v as u32)),
            );
            assert forall|v: u64| range_set_values(*coverage).contains(v) <==> grown.contains(v) by {
                if v == start {
                    assert(code_point(chars@[i as int]) == c);
                    assert(mapped_within(chars@, i as int + 1, v as u32));
                }
                if v <= u32::MAX && mapped_within(chars@, i as int, v as u32) {
                    assert(mapped_within(chars@, i as int + 1, v as u32));
                }
                if v <= u32::MAX && mapped_within(chars@, i as int + 1, v as u32) {
                    let k = choose|k: int|
                        0 <= k < i as int + 1 && k < chars@.len() && code_point(#[trigger] chars@[k]) == v as u32;
                    if k < i {
                        assert(mapped_within(chars@, i as int, v as u32));
                    } else {
                        assert(v == start);
                    }
                }
            }
            assert(range_set_values(*coverage) =~= grown);
        }
        i += 1;
    }
}

/// `base` with every value added whose counterpart in the symbol range lies
/// below `n` and is in `base`.
spec fn remapped_within(base: Set<u64>, n: int) -> Set<u64> {
    base.union(
        Set::new(
            |v: u64|
                v + SYMBOL_RANGE_FIRST < n && v <= SYMBOL_RANGE_LAST - SYMBOL_RANGE_FIRST && base.contains(
                    (v + SYMBOL_RANGE_FIRST) as u64,
                ),
        ),
    )
}

/// Adds, for every covered code point of the symbol range, its counterpart
/// below 0x100.
fn remap_symbol_range(coverage: &mut RangeSet<u64>)
    ensures
        range_set_values(*final(coverage)) == remapped_within(
            range_set_values(*old(coverage)),
            SYMBOL_RANGE_LAST + 1,
        ),
{
    let ghost base = range_set_values(*coverage);
    let mut c: u32 = SYMBOL_RANGE_FIRST;
    assert(range_set_values(*coverage) =~= remapped_within(base, c as int));
    while c <= SYMBOL_RANGE_LAST
        invariant
            SYMBOL_RANGE_FIRST <= c <= SYMBOL_RANGE_LAST + 1,
            range_set_values(*coverage) == remapped_within(base, c as int),
        decreases SYMBOL_RANGE_LAST + 1 - c,
    {
        let found: bool = range_set_contains(coverage, c as u64);
        proof {
            // What has been added so far lies below the symbol range.
            assert(found == base.contains(c as u64));
        }
        if found {
            let low: u64 = (c - SYMBOL_RANGE_FIRST) as u64;
            union_range(coverage, low, low + 1);
        }
        proof {
            assert forall|v: u64| range_set_values(*coverage).contains(v) <==> remapped_within(
                base,
                c as int + 1,
            ).contains(v) by {
                if v + SYMBOL_RANGE_FIRST == c {
                    assert(v == c - SYMBOL_RANGE_FIRST);
                }
            }
            assert(range_set_values(*coverage) =~= remapped_within(base, c as int + 1));
        }
        c += 1;
    }
}

impl Face {
    /// Computes the set of code points that the face covers, from what its
    /// character maps hold.
    ///
    /// The maps are taken in a fixed order, Unicode and then Microsoft
    /// Symbol, and one that the face does not have is passed over. Once
    /// the symbol map has been taken, every covered code point between
    /// 0xF000 and 0xF0FF also puts the code point 0xF000 below it into
    /// the set. The result holds a code point `c` as the value `c`, and
    /// holds exactly the code points that [`covered`] describes.
    pub fn compute_coverage(&self, maps: &CharMaps) -> (coverage: RangeSet<u64>)
        ensures
            range_set_values(coverage) == coverage_of(*maps),
    {
        let mut coverage: RangeSet<u64> = empty_range_set();
        match &maps.unicode {
            Some(chars) => {
                add_all(&mut coverage, chars);
            },
            None => {},
        }
        match &maps.ms_symbol {
            Some(chars) => {
                add_all(&mut coverage, chars);
                let ghost base = range_set_values(coverage);
                remap_symbol_range(&mut coverage);
                proof {
                    assert forall|v: u64| base.contains(v) <==> (v <= u32::MAX && (mapped(
                        maps.unicode,
                        v as u32,
                    ) || mapped(maps.ms_symbol, v as u32))) by {}
                    assert forall|v: u64| range_set_values(coverage).contains(v) <==> coverage_of(
                        *maps,
                    ).contains(v) by {
                        if v <= SYMBOL_RANGE_LAST - SYMBOL_RANGE_FIRST {
                            let high = (v + SYMBOL_RANGE_FIRST) as u64;
                            assert(high as u32 == (v as u32 + SYMBOL_RANGE_FIRST) as u32);
                            assert(base.contains(high) <==> (mapped(maps.unicode, high as u32) || mapped(
                                maps.ms_symbol,
                                high as u32,
                            )));
                        }
                    }
                }
            },
            None => {
                proof {
                    assert forall|v: u64| range_set_values(coverage).contains(v) <==> coverage_of(
                        *maps,
                    ).contains(v) by {}
                }
            },
        }
        assert(range_set_values(coverage) =~= coverage_of(*maps));
        coverage
    }
}

/// The code point of a character code is the code modulo 2^32, so a code
/// that fits 32 bits is its own code point.
pub proof fn lemma_code_point(char_code: u64)
    ensures
        code_point(char_code) == char_code % 0x1_0000_0000,
        char_code <= u32::MAX ==> code_point(char_code) == char_code,
{
    assert(char_code as u32 == char_code % 0x1_0000_0000) by (bit_vector);
}

/// On a face with a symbol map, a covered code point between 0xF000 and
/// 0xF0FF has its counterpart 0xF000 below it covered too.
pub proof fn lemma_symbol_range_is_remapped(maps: CharMaps, c: u32)
    requires
        maps.ms_symbol is Some,
        SYMBOL_RANGE_FIRST <= c <= SYMBOL_RANGE_LAST,
        covered(maps, c),
    ensures
        covered(maps, (c - SYMBOL_RANGE_FIRST) as u32),
        coverage_of(maps).contains((c - SYMBOL_RANGE_FIRST) as u64),
{
    let low = (c - SYMBOL_RANGE_FIRST) as u32;
    assert((low + SYMBOL_RANGE_FIRST) as u32 == c);
}

/// Remapping reaches nothing but the code points below 0x100: any other
/// code point is covered only if one of the character maps has it. And a
/// face without a symbol map is not remapped at all.
pub proof fn lemma_nothing_else_is_remapped(maps: CharMaps, c: u32)
    requires
        c > SYMBOL_RANGE_LAST - SYMBOL_RANGE_FIRST || maps.ms_symbol is None,
    ensures
        covered(maps, c) <==> (mapped(maps.unicode, c) || mapped(maps.ms_symbol, c)),
{
}

} // verus!
