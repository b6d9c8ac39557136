use vstd::prelude::*;

use crate::error::{Error, ErrorKind};
use crate::rpc::{HueSaturation, IntegerValueChange};

verus! {

/// `v` clamped into the inclusive range `[lo, hi]`.
pub open spec fn spec_clamp(v: int, lo: int, hi: int) -> int {
    if v < lo {
        lo
    } else if v > hi {
        hi
    } else {
        v
    }
}

/// The new value of a non-cyclic property after a change: an absolute target
/// or the current value plus a signed delta, clamped into `[lo, hi]` either
/// way.
pub open spec fn spec_resolve_linear(
    current: int,
    change: IntegerValueChange,
    lo: int,
    hi: int,
) -> int {
    if change.absolute {
        spec_clamp(change.value as int, lo, hi)
    } else {
        spec_clamp(current + change.value, lo, hi)
    }
}

/// The new hue after a change. An absolute value is used directly (the caller
/// validates its range); a relative delta wraps cyclically through the domain
/// `[1, 360]`, where a residue of zero stands for 360.
pub open spec fn spec_resolve_hue(current: int, change: IntegerValueChange) -> int {
    if change.absolute {
        change.value as int
    } else {
        let residue = (current + change.value) % 360;
        if residue == 0 {
            360
        } else {
            residue
        }
    }
}

fn resolve_linear(current: u32, change: &IntegerValueChange, lo: u32, hi: u32) -> (r: u32)
    requires
        lo <= hi,
    ensures
        r == spec_resolve_linear(current as int, *change, lo as int, hi as int),
        lo <= r <= hi,
{
    let target: i64 = if change.absolute {
        change.value as i64
    } else {
        current as i64 + change.value as i64
    };
    if target < lo as i64 {
        lo
    } else if target > hi as i64 {
        hi
    } else {
        target as u32
    }
}

/// The new brightness after a change, clamped into `[1, 100]`.
pub fn resolve_brightness(current: u32, change: &IntegerValueChange) -> (r: u32)
    ensures
        r == spec_resolve_linear(current as int, *change, 1, 100),
        1 <= r <= 100,
{
    resolve_linear(current, change, 1, 100)
}

/// The new saturation after a change, clamped into `[1, 100]`.
pub fn resolve_saturation(current: u32, change: &IntegerValueChange) -> (r: u32)
    ensures
        r == spec_resolve_linear(current as int, *change, 1, 100),
        1 <= r <= 100,
{
    resolve_linear(current, change, 1, 100)
}

/// The new color temperature after a change, clamped into `[2500, 6500]`.
pub fn resolve_temperature(current: u32, change: &IntegerValueChange) -> (r: u32)
    ensures
        r == spec_resolve_linear(current as int, *change, 2500, 6500),
        2500 <= r <= 6500,
{
    resolve_linear(current, change, 2500, 6500)
}

/// The new hue after a change. Absolute values must already be validated into
/// `[1, 360]`; relative deltas wrap cyclically, backward through 1 toward 360
/// for negative deltas, with the residue 0 normalized to 360.
pub fn resolve_hue(current: u32, change: &IntegerValueChange) -> (r: u32)
    requires
        change.absolute ==> 1 <= change.value <= 360,
    ensures
        r == spec_resolve_hue(current as int, *change),
        1 <= r <= 360,
{
    if change.absolute {
        change.value as u32
    } else {
        let total: i64 = current as i64 + change.value as i64;
        let residue: i64 = total.checked_rem_euclid(360).unwrap();
        if residue == 0 {
            360
        } else {
            residue as u32
        }
    }
}

/// Whether an absolute change falls outside the inclusive range `[lo, hi]`.
/// Relative changes are never range-checked up front: their legality depends
/// on the current value.
pub open spec fn spec_absolute_out_of_range(change: IntegerValueChange, lo: int, hi: int) -> bool {
    change.absolute && !(lo <= change.value as int <= hi)
}

/// Reject an absolute hue outside `[1, 360]`.
pub fn validate_hue(change: &IntegerValueChange) -> (r: Result<(), Error>)
    ensures
        r is Err <==> spec_absolute_out_of_range(*change, 1, 360),
        r is Err ==> r->Err_0.kind == ErrorKind::InvalidArgument,
{
    if change.absolute && !(1 <= change.value && change.value <= 360) {
        Err(Error::invalid_argument(String::from_str("Hue value has to be in range 1 to 360")))
    } else {
        Ok(())
    }
}

/// Reject an absolute color temperature outside `[2500, 6500]`.
pub fn validate_temperature(change: &IntegerValueChange) -> (r: Result<(), Error>)
    ensures
        r is Err <==> spec_absolute_out_of_range(*change, 2500, 6500),
        r is Err ==> r->Err_0.kind == ErrorKind::InvalidArgument,
{
    if change.absolute && !(2500 <= change.value && change.value <= 6500) {
        Err(Error::invalid_argument(String::from_str(
            "Temperature value has to be in range 2500 to 6500",
        )))
    } else {
        Ok(())
    }
}

/// Reject an absolute saturation outside `[1, 100]`.
pub fn validate_saturation(change: &IntegerValueChange) -> (r: Result<(), Error>)
    ensures
        r is Err <==> spec_absolute_out_of_range(*change, 1, 100),
        r is Err ==> r->Err_0.kind == ErrorKind::InvalidArgument,
{
    if change.absolute && !(1 <= change.value && change.value <= 100) {
        Err(Error::invalid_argument(String::from_str(
            "Saturation value has to be in range 1 to 100",
        )))
    } else {
        Ok(())
    }
}

/// Reject an absolute brightness outside `[1, 100]`.
pub fn validate_brightness(change: &IntegerValueChange) -> (r: Result<(), Error>)
    ensures
        r is Err <==> spec_absolute_out_of_range(*change, 1, 100),
        r is Err ==> r->Err_0.kind == ErrorKind::InvalidArgument,
{
    if change.absolute && !(1 <= change.value && change.value <= 100) {
        Err(Error::invalid_argument(String::from_str(
            "Brightness value has to be in range 1 to 100",
        )))
    } else {
        Ok(())
    }
}

/// Whether a hue/saturation pairing is malformed or carries an out-of-range
/// absolute value.
pub open spec fn spec_hue_saturation_invalid(hs: HueSaturation) -> bool {
    ||| hs.hue is Some != hs.saturation is Some
    ||| (hs.hue is Some && spec_absolute_out_of_range(hs.hue->0, 1, 360))
    ||| (hs.saturation is Some && spec_absolute_out_of_range(hs.saturation->0, 1, 100))
}

/// Reject a hue/saturation pair where only one side is present, or where a
/// present absolute value falls outside its domain range.
pub fn validate_hue_saturation(hs: &HueSaturation) -> (r: Result<(), Error>)
    ensures
        r is Err <==> spec_hue_saturation_invalid(*hs),
        r is Err ==> r->Err_0.kind == ErrorKind::InvalidArgument,
{
    if hs.hue.is_some() && hs.saturation.is_none() {
        return Err(Error::invalid_argument(String::from_str(
            "Saturation has to be set as well if hue is set",
        )));
    }
    if hs.hue.is_none() && hs.saturation.is_some() {
        return Err(Error::invalid_argument(String::from_str(
            "Hue has to be set as well if saturation is set",
        )));
    }
    if let Some(hue) = &hs.hue {
        validate_hue(hue)?;
    }
    if let Some(saturation) = &hs.saturation {
        validate_saturation(saturation)?;
    }
    Ok(())
}

} // verus!
