//! The transfer band of the pump.
//!
//! A 2:1 pump moves power only while its input sits a little above twice the
//! cell. The band rides with the pack: its floor, its centre and its top are
//! 200, 300 and 400 mV above the doubled cell, and 2:1 is admitted from 250 mV
//! upwards.
use vstd::prelude::*;

verus! {

/// Twice a cell voltage plus an offset (µV), or the largest number where that
/// does not fit.
#[verifier::allow_in_spec]
pub fn above_doubled(vbat_uv: u32, offset_uv: u32) -> (r: u32)
    returns
        (if 2 * vbat_uv + offset_uv > u32::MAX { u32::MAX } else { (2 * vbat_uv + offset_uv) as u32 }),
{
    let wide: u64 = 2 * (vbat_uv as u64) + offset_uv as u64;
    if wide > u32::MAX as u64 { u32::MAX } else { wide as u32 }
}

/// Floor of the band (µV).
#[verifier::allow_in_spec]
pub fn window_floor_uv(vbat_uv: u32) -> (r: u32)
    returns
        above_doubled(vbat_uv, 200_000),
{
    above_doubled(vbat_uv, 200_000)
}

/// Centre of the band (µV).
#[verifier::allow_in_spec]
pub fn window_target_uv(vbat_uv: u32) -> (r: u32)
    returns
        above_doubled(vbat_uv, 300_000),
{
    above_doubled(vbat_uv, 300_000)
}

/// Top of the band (µV).
#[verifier::allow_in_spec]
pub fn window_top_uv(vbat_uv: u32) -> (r: u32)
    returns
        above_doubled(vbat_uv, 400_000),
{
    above_doubled(vbat_uv, 400_000)
}

/// Lowest input at which 2:1 is admitted by the cell (µV).
#[verifier::allow_in_spec]
pub fn min_vin_for_switching_uv(vbat_uv: u32) -> (r: u32)
    returns
        above_doubled(vbat_uv, 250_000),
{
    above_doubled(vbat_uv, 250_000)
}

/// Whether 2:1 may be requested: the input passes the fixed threshold and has
/// headroom over the doubled cell.
#[verifier::allow_in_spec]
pub fn admits_switching(vin_uv: i32, vbat_uv: u32) -> (r: bool)
    returns
        vin_uv >= crate::pump::SWITCHING_MIN_VIN_UV && vin_uv >= min_vin_for_switching_uv(vbat_uv),
{
    vin_uv >= crate::pump::SWITCHING_MIN_VIN_UV && vin_uv as i64 >= min_vin_for_switching_uv(vbat_uv) as i64
}

/// Whether a cell reading can be used: the conversion succeeded and the cell is
/// there.
#[verifier::allow_in_spec]
pub fn vbat_reading_usable(read_ok: bool, vbat_uv: u32) -> (r: bool)
    returns
        read_ok && vbat_uv > 0,
{
    read_ok && vbat_uv > 0
}

/// The marks of the band are in order for every cell that a machine can hold.
pub proof fn law_band_is_ordered(vbat_uv: u32)
    requires
        2 * vbat_uv + 400_000 <= u32::MAX,
    ensures
        window_floor_uv(vbat_uv) < min_vin_for_switching_uv(vbat_uv),
        min_vin_for_switching_uv(vbat_uv) < window_target_uv(vbat_uv),
        window_target_uv(vbat_uv) < window_top_uv(vbat_uv),
        window_top_uv(vbat_uv) - window_floor_uv(vbat_uv) == 200_000,
{
}

/// The marks ride on the doubled cell, at 200, 250, 300 and 400 mV above it, as far as
/// a machine can say so.
pub proof fn law_band_rides_on_the_cell(vbat_uv: u32)
    ensures
        2 * vbat_uv + 400_000 <= u32::MAX ==> {
            &&& window_floor_uv(vbat_uv) == 2 * vbat_uv + 200_000
            &&& min_vin_for_switching_uv(vbat_uv) == 2 * vbat_uv + 250_000
            &&& window_target_uv(vbat_uv) == 2 * vbat_uv + 300_000
            &&& window_top_uv(vbat_uv) == 2 * vbat_uv + 400_000
        },
        2 * vbat_uv > u32::MAX ==> window_floor_uv(vbat_uv) == u32::MAX && window_top_uv(vbat_uv)
            == u32::MAX && min_vin_for_switching_uv(vbat_uv) == u32::MAX && window_target_uv(
            vbat_uv,
        ) == u32::MAX,
{
}

/// An input admits 2:1 exactly from 8 V and from 250 mV above the doubled cell on.
pub proof fn law_headroom_admits_switching(vin_uv: i32, vbat_uv: u32)
    requires
        2 * vbat_uv + 250_000 <= u32::MAX,
    ensures
        admits_switching(vin_uv, vbat_uv) <==> vin_uv >= 8_000_000 && vin_uv - 2 * vbat_uv
            >= 250_000,
{
}

/// A cell reading is usable exactly where it was made and is not zero.
pub proof fn law_reading_is_of_a_cell(read_ok: bool, vbat_uv: u32)
    ensures
        vbat_reading_usable(read_ok, vbat_uv) <==> read_ok && vbat_uv != 0,
{
}

} // verus!
