//! Reading the settings of a task that are whole numbers, flags and
//! regions. Settings that are fractions are the engine's to read.

use crate::utils::parse::{
    chars_of, field_bounds, fields, parse_i32, parse_u32, signed_in, skip_spaces,
    skip_spaces_back, trimmed, unsigned_between, unsigned_in,
};
use crate::utils::text::opt_str_chars;
use vstd::prelude::*;
use vstd::string::*;

verus! {

/// A rectangle of a picture: left, top, width and height.
pub type Region = (u32, u32, u32, u32);

/// The number that one field of a region writes, white space around it set
/// aside.
pub open spec fn field_number(field: Seq<char>) -> Option<nat> {
    unsigned_in(trimmed(field), u32::MAX as nat)
}

/// The region that a text writes: four numbers with commas between them,
/// as in `10, 20,300,400`. Any other text is nothing.
pub open spec fn region_of(s: Seq<char>) -> Option<Region> {
    let parts = fields(s, ',');
    if parts.len() == 4 && field_number(parts[0]) is Some && field_number(parts[1]) is Some
        && field_number(parts[2]) is Some && field_number(parts[3]) is Some {
        Some(
            (
                field_number(parts[0])->0 as u32,
                field_number(parts[1])->0 as u32,
                field_number(parts[2])->0 as u32,
                field_number(parts[3])->0 as u32,
            ),
        )
    } else {
        None
    }
}

/// The regions among the given texts, in order; a text that writes no
/// region is passed over.
pub open spec fn regions_in(parts: Seq<Seq<char>>) -> Seq<Region>
    decreases parts.len(),
{
    if parts.len() == 0 {
        Seq::empty()
    } else {
        match region_of(parts.last()) {
            Some(region) => regions_in(parts.drop_last()).push(region),
            None => regions_in(parts.drop_last()),
        }
    }
}

/// The regions to blur that a text writes, with semicolons between them, as
/// in `0,0,10,10;5,5,20,20`. A text that writes no region at all is
/// nothing.
pub open spec fn blur_regions_of(s: Seq<char>) -> Option<Seq<Region>> {
    let regions = regions_in(fields(s, ';'));
    if regions.len() > 0 {
        Some(regions)
    } else {
        None
    }
}

/// The rotation that a text writes: 90, 180 or 270 degrees, and nothing for
/// any other text.
pub open spec fn rotation_of(s: Seq<char>) -> Option<i32> {
    match signed_in(s, i32::MIN as int, i32::MAX as int) {
        Some(v) => if v == 90 || v == 180 || v == 270 {
            Some(v as i32)
        } else {
            None
        },
        None => None,
    }
}

/// The resolution that a width and a height write, where both are given
/// and both are numbers.
pub open spec fn resolution_of(width: Option<Seq<char>>, height: Option<Seq<char>>) -> Option<
    (u32, u32),
> {
    if width is Some && height is Some && unsigned_in(width->0, u32::MAX as nat) is Some
        && unsigned_in(height->0, u32::MAX as nat) is Some {
        Some(
            (
                unsigned_in(width->0, u32::MAX as nat)->0 as u32,
                unsigned_in(height->0, u32::MAX as nat)->0 as u32,
            ),
        )
    } else {
        None
    }
}

/// The number that the field between `from` and `to` writes.
fn number_between(chars: &Vec<char>, from: usize, to: usize) -> (r: Option<u32>)
    requires
        from <= to <= chars.len(),
    ensures
        r is Some <==> field_number(chars@.subrange(from as int, to as int)) is Some,
        r is Some ==> r->0 == field_number(chars@.subrange(from as int, to as int))->0,
{
    let start = skip_spaces(chars, from, to);
    let end = skip_spaces_back(chars, start, to);
    match unsigned_between(chars, start, end, 0xffff_ffff) {
        Some(value) => Some(value as u32),
        None => None,
    }
}

/// The region that the characters between `from` and `to` write.
fn region_between(chars: &Vec<char>, from: usize, to: usize) -> (r: Option<Region>)
    requires
        from <= to <= chars.len(),
    ensures
        r == region_of(chars@.subrange(from as int, to as int)),
{
    let bounds = field_bounds(chars, from, to, ',');
    if bounds.len() != 4 {
        return None;
    }
    let x = match number_between(chars, bounds[0].0, bounds[0].1) {
        Some(v) => v,
        None => {
            return None;
        },
    };
    let y = match number_between(chars, bounds[1].0, bounds[1].1) {
        Some(v) => v,
        None => {
            return None;
        },
    };
    let w = match number_between(chars, bounds[2].0, bounds[2].1) {
        Some(v) => v,
        None => {
            return None;
        },
    };
    let h = match number_between(chars, bounds[3].0, bounds[3].1) {
        Some(v) => v,
        None => {
            return None;
        },
    };
    Some((x, y, w, h))
}

/// Read a region, as the crop setting holds one: see `region_of`.
pub fn parse_region(text: &str) -> (r: Option<Region>)
    ensures
        r == region_of(text@),
{
    let chars = chars_of(text);
    assert(chars@.subrange(0, chars@.len() as int) =~= text@);
    region_between(&chars, 0, chars.len())
}

/// Read the regions to blur: see `blur_regions_of`.
pub fn parse_blur_regions(text: &str) -> (r: Option<Vec<Region>>)
    ensures
        r is Some <==> blur_regions_of(text@) is Some,
        r is Some ==> r->0@ == blur_regions_of(text@)->0,
{
    let chars = chars_of(text);
    assert(chars@.subrange(0, chars@.len() as int) =~= text@);
    let bounds = field_bounds(&chars, 0, chars.len(), ';');
    let ghost parts = fields(text@, ';');
    let mut regions: Vec<Region> = Vec::new();
    let mut k: usize = 0;
    assert(parts.take(0) =~= Seq::<Seq<char>>::empty());
    while k < bounds.len()
        invariant
            k <= bounds.len(),
            bounds@.len() == parts.len(),
            forall|j: int|
                0 <= j < bounds@.len() ==> (#[trigger] bounds@[j]).0 <= bounds@[j].1
                    <= chars.len() && chars@.subrange(bounds@[j].0 as int, bounds@[j].1 as int)
                    == parts[j],
            regions@ == regions_in(parts.take(k as int)),
        decreases bounds.len() - k,
    {
        let found = region_between(&chars, bounds[k].0, bounds[k].1);
        proof {
            assert(parts.take(k as int + 1).drop_last() =~= parts.take(k as int));
            assert(parts.take(k as int + 1).last() == parts[k as int]);
        }
        match found {
            Some(region) => {
                regions.push(region);
            },
            None => {},
        }
        k += 1;
    }
    assert(parts.take(parts.len() as int) =~= parts);
    if regions.len() > 0 {
        Some(regions)
    } else {
        None
    }
}

/// Read a rotation: see `rotation_of`.
pub fn parse_rotation(text: &str) -> (r: Option<i32>)
    ensures
        r == rotation_of(text@),
{
    match parse_i32(text) {
        Some(v) => if v == 90 || v == 180 || v == 270 {
            Some(v)
        } else {
            None
        },
        None => None,
    }
}

/// Read a resolution from the width and height settings: see
/// `resolution_of`.
pub fn parse_resolution(width: Option<&str>, height: Option<&str>) -> (r: Option<(u32, u32)>)
    ensures
        r == resolution_of(opt_str_chars(width), opt_str_chars(height)),
{
    match (width, height) {
        (Some(w), Some(h)) => match (parse_u32(w), parse_u32(h)) {
            (Some(w), Some(h)) => Some((w, h)),
            _ => None,
        },
        _ => None,
    }
}

} // verus!
